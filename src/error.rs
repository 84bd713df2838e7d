//! The closed set of failures that a query can end in.

use vstd::prelude::*;
use crate::json::{member, Json, JsonV};

verus! {

/// Errors which may occur when creating a request body.
#[derive(Debug)]
#[non_exhaustive]
pub enum BodyError {
    /// Body data could not be serialized to JSON.
    SerdeJson { source: serde_json::Error },
}

/// Why a JSON value did not decode into the requested model.
#[derive(Clone, Copy, Debug, PartialEq, Eq)]
pub enum DecodeError {
    /// An object lacked a member that the model requires.
    MissingField { field: &'static str },
    /// A value had another JSON type than the model requires.
    InvalidType { expected: &'static str },
}

/// Errors which may occur when using API endpoints.
#[derive(Debug)]
#[non_exhaustive]
pub enum ApiError<E> {
    /// The client encountered an error.
    Client { source: E },
    /// The URL failed to parse.
    UrlParse { source: url::ParseError },
    /// Body data could not be created.
    Body { source: BodyError },
    /// The body of a success response is not JSON.
    Json { source: serde_json::Error },
    /// The server returned an error message.
    Traduora { msg: String },
    /// The server returned an error without JSON information.
    TraduoraService { status: u16, data: Vec<u8> },
    /// The server returned an error object.
    TraduoraObject { obj: Json },
    /// The server returned an error with JSON that is not recognized.
    TraduoraUnrecognized { obj: Json },
    /// The JSON of a success response does not match the requested type.
    DataType { source: DecodeError, typename: &'static str },
}

/// What a query ended in, as a mathematical value: the decoded model's view
/// or the kind of failure with what it carries.
pub enum Outcome<V> {
    Decoded(V),
    Client,
    UrlParse,
    Body,
    Json,
    /// A decoding failure, with the name of the target type.
    DataType(Seq<char>),
    Message(Seq<char>),
    Service { status: u16, data: Seq<u8> },
    Object(JsonV),
    Unrecognized(JsonV),
}

pub open spec fn error_outcome<V, E>(e: ApiError<E>) -> Outcome<V> {
    match e {
        ApiError::Client { .. } => Outcome::Client,
        ApiError::UrlParse { .. } => Outcome::UrlParse,
        ApiError::Body { .. } => Outcome::Body,
        ApiError::Json { .. } => Outcome::Json,
        ApiError::Traduora { msg } => Outcome::Message(msg@),
        ApiError::TraduoraService { status, data } => Outcome::Service { status, data: data@ },
        ApiError::TraduoraObject { obj } => Outcome::Object(obj@),
        ApiError::TraduoraUnrecognized { obj } => Outcome::Unrecognized(obj@),
        ApiError::DataType { typename, .. } => Outcome::DataType(typename@),
    }
}

/// The outcome that a query result stands for.
pub open spec fn outcome<T: DeepView, E>(r: Result<T, ApiError<E>>) -> Outcome<T::V> {
    match r {
        Ok(x) => Outcome::Decoded(x.deep_view()),
        Err(e) => error_outcome(e),
    }
}

/// The error part of a server's error document: its `message` member, or
/// else its `error` member.
pub open spec fn error_member(v: JsonV) -> Option<JsonV> {
    if member(v, "message"@) is Some {
        member(v, "message"@)
    } else {
        member(v, "error"@)
    }
}

/// How a JSON error document from the server is classified.
pub open spec fn classified<V>(v: JsonV) -> Outcome<V> {
    match error_member(v) {
        Some(JsonV::Str(msg)) => Outcome::Message(msg),
        Some(obj) => Outcome::Object(obj),
        None => Outcome::Unrecognized(v),
    }
}

impl<E> ApiError<E> {
    /// Create an API error in a client error.
    pub fn client(source: E) -> (r: Self)
        ensures
            r == (ApiError::<E>::Client { source }),
    {
        ApiError::Client { source }
    }

    /// The error for a non-success response whose body is not JSON.
    pub fn server_error(status: u16, body: &[u8]) -> (r: Self)
        ensures
            error_outcome::<(), E>(r) == (Outcome::<()>::Service { status, data: body@ }),
    {
        let data = slice_to_vec(body);
        ApiError::TraduoraService { status, data }
    }

    /// Classifies a JSON error document from the server: a string `message`
    /// (or, failing that, `error`) member gives its text; a member of another
    /// type is carried as it is; without either, the whole document is.
    pub fn from_traduora(value: Json) -> (r: Self)
        ensures
            error_outcome::<(), E>(r) == classified::<()>(value@),
    {
        let error_value = match value.get("message") {
            Some(v) => Some(v),
            None => value.get("error"),
        };
        match error_value {
            Some(Json::Str(msg)) => ApiError::Traduora { msg: msg.clone() },
            Some(other) => ApiError::TraduoraObject { obj: other.deep_clone() },
            None => ApiError::TraduoraUnrecognized { obj: value },
        }
    }

    /// The error for JSON that did not decode into the type named `typename`.
    pub fn data_type(source: DecodeError, typename: &'static str) -> (r: Self)
        ensures
            r == (ApiError::<E>::DataType { source, typename }),
    {
        ApiError::DataType { source, typename }
    }
}

/// A copy of `s` as a vector.
pub fn slice_to_vec(s: &[u8]) -> (r: Vec<u8>)
    ensures
        r@ == s@,
{
    let mut out: Vec<u8> = Vec::new();
    let mut i: usize = 0;
    while i < s.len()
        invariant
            0 <= i <= s.len(),
            out@ == s@.subrange(0, i as int),
        decreases s.len() - i,
    {
        out.push(s[i]);
        i = i + 1;
    }
    assert(out@ =~= s@);
    out
}

} // verus!
