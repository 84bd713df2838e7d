//! Permission levels.
//!
//! A scope says what a client may do. An endpoint names the scope it
//! requires; a client may call it only where the endpoint's scope can be had
//! `From` the client's. There is no conversion from [`Unauthenticated`] to
//! [`Authenticated`], so a client without a credential cannot call an
//! endpoint that requires one: such a call does not compile.

use vstd::prelude::*;
use vstd::string::StringExecFns;
use crate::api::auth::AccessToken;

verus! {

#[verifier::external_type_specification]
#[verifier::external_body]
pub struct ExInvalidHeaderValue(http::header::InvalidHeaderValue);

#[verifier::external_type_specification]
#[verifier::external_body]
pub struct ExHeaderValue(http::HeaderValue);

/// The error which is returned when the `Authorization` header cannot be made.
#[derive(Debug)]
#[non_exhaustive]
pub enum AuthError {
    /// The header value holds characters that a header may not hold.
    HeaderValue { source: http::header::InvalidHeaderValue },
}

/// A character that a header value may hold: a tab, or a code point from
/// 32 on other than 127. (A character above 127 is written as bytes from
/// 128 on, which a header value may hold.)
pub open spec fn header_char(c: char) -> bool {
    c == '\t' || (c as u32 >= 32 && c as u32 != 127)
}

pub open spec fn valid_header_text(s: Seq<char>) -> bool {
    forall|i: int| 0 <= i < s.len() ==> header_char(#[trigger] s[i])
}

/// Relies on `http::HeaderValue::from_str`: it accepts exactly the text
/// whose every byte is a tab or at least 32 and not 127.
#[verifier::external_body]
fn header_value(s: &str) -> (r: Result<http::HeaderValue, http::header::InvalidHeaderValue>)
    ensures
        r is Ok <==> valid_header_text(s@),
{
    http::HeaderValue::from_str(s)
}

/// The `Authorization` header that a scope sends: its text, and whether it
/// must be kept out of logs.
#[derive(Clone, Debug, PartialEq, Eq)]
pub struct AuthorizationHeader {
    pub value: String,
    pub sensitive: bool,
}

/// Determines the permissions of a client.
pub trait Scope {
    /// The bearer token that this scope sends, if it holds one.
    spec fn spec_token(&self) -> Option<Seq<char>>;

    /// The `Authorization` header to send, if any: `Bearer <token>`,
    /// marked sensitive. It fails where that text cannot stand in a header.
    fn authorization(&self) -> (r: Result<Option<AuthorizationHeader>, AuthError>)
        ensures
            self.spec_token() is None ==> r matches Ok(None),
            self.spec_token() matches Some(t) ==> (r is Err <==> !valid_header_text(bearer(t))),
            self.spec_token() matches Some(t) ==> (valid_header_text(bearer(t)) ==> (r matches Ok(
                Some(h),
            ) && h.value@ == bearer(t) && h.sensitive)),
    ;
}

/// The header text that carries the token `t`.
pub open spec fn bearer(t: Seq<char>) -> Seq<char> {
    "Bearer "@ + t
}

/// Client is authenticated and has an access token.
/// This allows calling all endpoints, including those that need authorization.
#[derive(Clone, Debug)]
pub struct Authenticated(String);

/// Client is not authenticated: only a small subset of endpoints is
/// available to it.
#[derive(PartialEq, Eq, Structural, Clone, Copy, Debug)]
pub struct Unauthenticated;

impl Authenticated {
    /// The bearer token.
    pub closed spec fn token(&self) -> Seq<char> {
        self.0@
    }
}

impl Scope for Authenticated {
    open spec fn spec_token(&self) -> Option<Seq<char>> {
        Some(self.token())
    }

    fn authorization(&self) -> (r: Result<Option<AuthorizationHeader>, AuthError>) {
        let text = String::from_str("Bearer ").concat(self.0.as_str());
        proof {
            assert(text@ == bearer(self.token()));
        }
        match header_value(text.as_str()) {
            Ok(_) => Ok(Some(AuthorizationHeader { value: text, sensitive: true })),
            Err(source) => Err(AuthError::HeaderValue { source }),
        }
    }
}

impl Scope for Unauthenticated {
    open spec fn spec_token(&self) -> Option<Seq<char>> {
        None
    }

    fn authorization(&self) -> (r: Result<Option<AuthorizationHeader>, AuthError>) {
        Ok(None)
    }
}

/// Downgrades an [`Authenticated`] scope to an [`Unauthenticated`] one, so
/// that a client with a credential may call the endpoints that need none.
impl From<Authenticated> for Unauthenticated {
    fn from(_a: Authenticated) -> (r: Unauthenticated) {
        Unauthenticated
    }
}

impl vstd::std_specs::convert::FromSpecImpl<Authenticated> for Unauthenticated {
    open spec fn obeys_from_spec() -> bool {
        true
    }

    open spec fn from_spec(v: Authenticated) -> Unauthenticated {
        Unauthenticated
    }
}

/// Makes an [`Authenticated`] scope from a token.
impl From<String> for Authenticated {
    fn from(f: String) -> (r: Authenticated) {
        Authenticated(f)
    }
}

impl vstd::std_specs::convert::FromSpecImpl<String> for Authenticated {
    open spec fn obeys_from_spec() -> bool {
        true
    }

    closed spec fn from_spec(v: String) -> Authenticated {
        Authenticated(v)
    }
}

/// Makes an [`Authenticated`] scope from the token that signing in granted.
impl From<AccessToken> for Authenticated {
    fn from(f: AccessToken) -> (r: Authenticated) {
        Authenticated(f.access_token)
    }
}

impl vstd::std_specs::convert::FromSpecImpl<AccessToken> for Authenticated {
    open spec fn obeys_from_spec() -> bool {
        true
    }

    closed spec fn from_spec(v: AccessToken) -> Authenticated {
        Authenticated(v.access_token)
    }
}

} // verus!
