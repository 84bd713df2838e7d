//! Typed client library for a translation-management REST service.
//!
//! Endpoint descriptors say what to send; the decoding pipeline turns the
//! raw response into a typed model or a classified error.

pub mod api;
pub mod auth;
pub mod builder;
pub mod endpoint;
pub mod error;
pub mod json;
pub mod model;
pub mod query;
pub mod response;

pub use builder::Builder as TraduoraBuilder;
pub use error::{ApiError, BodyError};
pub use query::{Client, CustomQuery, DefaultModel, DummyClient, Query, RestClient};

use vstd::prelude::*;

verus! {

/// Signing in; the shorter name reads better where a client is built.
pub type Login = api::auth::Token;

} // verus!
