//! Endpoint descriptors and the requests built from them.

use vstd::prelude::*;
use vstd::string::{StrSliceExecFns, StringExecFns};
use vstd::utf8::encode_utf8;
use crate::auth::Scope;
use crate::error::{ApiError, BodyError};
use crate::json::{json_string_literal, quote_json};

verus! {

#[verifier::external_type_specification]
#[verifier::external_body]
pub struct ExUrlParseError(url::ParseError);

/// The HTTP methods that endpoints use.
#[derive(PartialEq, Eq, Structural, Clone, Copy, Debug)]
pub enum Method {
    Get,
    Post,
    Patch,
    Delete,
}

impl Method {
    /// The method's name on the wire.
    pub fn as_str(&self) -> (r: &'static str)
        ensures
            r@ == method_name(*self),
    {
        match self {
            Method::Get => "GET",
            Method::Post => "POST",
            Method::Patch => "PATCH",
            Method::Delete => "DELETE",
        }
    }
}

pub open spec fn method_name(m: Method) -> Seq<char> {
    match m {
        Method::Get => "GET"@,
        Method::Post => "POST"@,
        Method::Patch => "PATCH"@,
        Method::Delete => "DELETE"@,
    }
}

/// The content type of every request body.
pub open spec fn json_mime() -> Seq<char> {
    "application/json"@
}

/// The text of a member value: a JSON string, or `null` for none.
pub open spec fn value_text(v: Option<Seq<char>>) -> Seq<char> {
    match v {
        Some(s) => json_string_literal(s),
        None => "null"@,
    }
}

/// The text of one member `"key":value`.
pub open spec fn member_text(f: (Seq<char>, Option<Seq<char>>)) -> Seq<char> {
    "\""@ + f.0 + "\":"@ + value_text(f.1)
}

/// The members joined by commas.
pub open spec fn members_text(fs: Seq<(Seq<char>, Option<Seq<char>>)>) -> Seq<char>
    decreases fs.len(),
{
    if fs.len() == 0 {
        Seq::empty()
    } else if fs.len() == 1 {
        member_text(fs[0])
    } else {
        members_text(fs.drop_last()) + ","@ + member_text(fs.last())
    }
}

/// The compact JSON text of an object whose members are strings or `null`,
/// in the given order.
pub open spec fn object_text(fs: Seq<(Seq<char>, Option<Seq<char>>)>) -> Seq<char> {
    "{"@ + members_text(fs) + "}"@
}

/// The request body that an endpoint's JSON text `t` is sent as.
pub open spec fn body_matches(
    r: Result<Option<(&'static str, Vec<u8>)>, BodyError>,
    t: Option<Seq<char>>,
) -> bool {
    match t {
        None => r matches Ok(None),
        Some(text) => r matches Ok(Some((mime, bytes))) && mime@ == json_mime() && bytes@
            == encode_utf8(text),
    }
}

/// Frames the members `fields` as a JSON object, for a request body.
pub fn json_body(fields: &Vec<(&'static str, Option<&str>)>) -> (r: Result<
    Option<(&'static str, Vec<u8>)>,
    BodyError,
>)
    ensures
        body_matches(r, Some(object_text(fields.deep_view()))),
{
    let mut text = String::from_str("{");
    let mut i: usize = 0;
    while i < fields.len()
        invariant
            0 <= i <= fields.len(),
            text@ == "{"@ + members_text(fields.deep_view().subrange(0, i as int)),
        decreases fields.len() - i,
    {
        let ghost fs = fields.deep_view();
        let (key, value) = fields[i];
        if i > 0 {
            text.append(",");
        }
        text.append("\"");
        text.append(key);
        text.append("\":");
        match value {
            Some(v) => {
                let quoted = match quote_json(v) {
                    Ok(q) => q,
                    Err(source) => return Err(BodyError::SerdeJson { source }),
                };
                text.append(quoted.as_str());
            },
            None => {
                text.append("null");
            },
        }
        proof {
            let pre = fs.subrange(0, i as int);
            let next = fs.subrange(0, i + 1);
            assert(next.drop_last() =~= pre);
            assert(fs[i as int] == (key@, value.deep_view()));
            if i == 0 {
                assert(members_text(pre) =~= Seq::<char>::empty());
                assert(text@ =~= "{"@ + member_text(fs[i as int]));
            } else {
                assert(text@ =~= "{"@ + members_text(pre) + ","@ + member_text(fs[i as int]));
            }
        }
        i = i + 1;
    }
    text.append("}");
    assert(fields.deep_view().subrange(0, fields.len() as int) =~= fields.deep_view());
    Ok(Some(("application/json", text.as_str().as_bytes_vec())))
}

/// A trait for providing the necessary information for a single REST API
/// endpoint: method, path relative to the API root, body, and the scope
/// that a client needs to call it.
pub trait Endpoint {
    /// The permission level that a client must have to access this endpoint.
    type AccessControl: Scope;

    spec fn spec_method(&self) -> Method;

    spec fn spec_path(&self) -> Seq<char>;

    /// The JSON text of the request body, where the endpoint sends one, or
    /// the error that building it ends in.
    spec fn spec_body(&self) -> Result<Option<Seq<char>>, BodyError>;

    /// The HTTP method to use for the endpoint.
    fn method(&self) -> (r: Method)
        ensures
            r == self.spec_method(),
    ;

    /// The path to the endpoint, relative to the API root.
    fn endpoint(&self) -> (r: String)
        ensures
            r@ == self.spec_path(),
    ;

    /// The body for the endpoint: its content type and bytes.
    fn body(&self) -> (r: Result<Option<(&'static str, Vec<u8>)>, BodyError>)
        ensures
            match self.spec_body() {
                Ok(t) => body_matches(r, t),
                Err(e) => r == Err::<Option<(&'static str, Vec<u8>)>, BodyError>(e),
            },
    ;
}

/// The URL that `url` makes of `path` resolved against the base `base`,
/// where both are valid.
pub uninterp spec fn joined_url(base: Seq<char>, path: Seq<char>) -> Option<Seq<char>>;

/// Relies on `url::Url::parse` of the base and `url::Url::join` of the
/// path onto it: the text of the resolved URL, or the parse error.
#[verifier::external_body]
fn join_url(base: &str, path: &str) -> (r: Result<String, url::ParseError>)
    ensures
        r is Ok <==> joined_url(base@, path@) is Some,
        r matches Ok(u) ==> joined_url(base@, path@) == Some(u@),
{
    url::Url::parse(base).and_then(|b| b.join(path)).map(|u| u.to_string())
}

/// A request ready for the transport.
#[derive(Clone, Debug, PartialEq, Eq)]
pub struct Request {
    pub method: Method,
    pub url: String,
    /// The `Content-Type` header, where there is a body.
    pub content_type: Option<&'static str>,
    pub body: Vec<u8>,
}

/// The request as a mathematical value.
pub struct RequestV {
    pub method: Method,
    pub url: Seq<char>,
    pub content_type: Option<Seq<char>>,
    pub body: Seq<u8>,
}

impl View for Request {
    type V = RequestV;

    open spec fn view(&self) -> RequestV {
        RequestV {
            method: self.method,
            url: self.url@,
            content_type: match self.content_type {
                Some(c) => Some(c@),
                None => None,
            },
            body: self.body@,
        }
    }
}

/// What building a request ends in.
pub enum Built {
    /// The path does not resolve against the API root.
    UrlParse,
    /// The body could not be built.
    Body(BodyError),
    Request(RequestV),
}

/// What building the request of `e` against the API root `base` ends in. A
/// URL that cannot be resolved comes first, a failing body second.
pub open spec fn request_spec<E: Endpoint>(e: &E, base: Seq<char>) -> Built {
    match joined_url(base, e.spec_path()) {
        None => Built::UrlParse,
        Some(url) => match e.spec_body() {
            Err(be) => Built::Body(be),
            Ok(body) => Built::Request(
                RequestV {
                    method: e.spec_method(),
                    url,
                    content_type: match body {
                        Some(_) => Some(json_mime()),
                        None => None,
                    },
                    body: match body {
                        Some(t) => encode_utf8(t),
                        None => Seq::empty(),
                    },
                },
            ),
        },
    }
}

/// Whether `r` is what building the request `built` ends in.
pub open spec fn build_matches<X>(r: Result<Request, ApiError<X>>, built: Built) -> bool {
    match built {
        Built::UrlParse => r matches Err(ApiError::UrlParse { .. }),
        Built::Body(be) => r == Err::<Request, ApiError<X>>(ApiError::Body { source: be }),
        Built::Request(q) => r matches Ok(req) && req@ == q,
    }
}

/// Builds the request for `endpoint` against the API root `base`.
pub fn build_request_with_body<E: Endpoint, X>(endpoint: &E, base: &str) -> (r: Result<
    Request,
    ApiError<X>,
>)
    ensures
        build_matches(r, request_spec(endpoint, base@)),
{
    let path = endpoint.endpoint();
    let url = match join_url(base, path.as_str()) {
        Ok(u) => u,
        Err(source) => return Err(ApiError::UrlParse { source }),
    };
    let method = endpoint.method();
    match endpoint.body() {
        Ok(Some((mime, body))) => Ok(Request { method, url, content_type: Some(mime), body }),
        Ok(None) => Ok(Request { method, url, content_type: None, body: Vec::new() }),
        Err(source) => Err(ApiError::Body { source }),
    }
}

} // verus!

