//! Client configuration: host, protocol, certificate checks and credential.

use vstd::prelude::*;
use vstd::string::StringExecFns;
use crate::api::{parse_url, parsed_url, AccessToken};
use crate::api::auth::Token;

verus! {

/// Collects what a client is built from. A client itself holds a transport
/// and is made outside this library; this value says how.
#[derive(Clone, Debug)]
pub struct Builder<'h, L> {
    host: &'h str,
    protocol: &'static str,
    validate_certs: bool,
    login: L,
}

/// The API root for `protocol` and `host`, before it is parsed.
pub open spec fn rest_url_text(protocol: Seq<char>, host: Seq<char>) -> Seq<char> {
    protocol + "://"@ + host + "/api/v1/"@
}

impl<'h> Builder<'h, ()> {
    /// A configuration for `host` over HTTPS, with certificates checked and
    /// no credential.
    pub fn new(host: &'h str) -> (r: Self)
        ensures
            r.spec_host() == host@,
            r.spec_protocol() == "https"@,
            r.spec_validate_certs(),
    {
        Builder { host, protocol: "https", validate_certs: true, login: () }
    }

    /// The same configuration, signing in with `login` when built.
    pub fn authenticate(self, login: Token) -> (r: Builder<'h, Token>)
        ensures
            r.spec_host() == self.spec_host(),
            r.spec_protocol() == self.spec_protocol(),
            r.spec_validate_certs() == self.spec_validate_certs(),
            r.spec_login() == login,
    {
        Builder {
            host: self.host,
            protocol: self.protocol,
            validate_certs: self.validate_certs,
            login,
        }
    }

    /// The same configuration, with a token obtained before.
    pub fn with_access_token(self, token: AccessToken) -> (r: Builder<'h, AccessToken>)
        ensures
            r.spec_host() == self.spec_host(),
            r.spec_protocol() == self.spec_protocol(),
            r.spec_validate_certs() == self.spec_validate_certs(),
            r.spec_login() == token,
    {
        Builder {
            host: self.host,
            protocol: self.protocol,
            validate_certs: self.validate_certs,
            login: token,
        }
    }
}

impl<'h, L> Builder<'h, L> {
    pub closed spec fn spec_host(&self) -> Seq<char> {
        self.host@
    }

    pub closed spec fn spec_protocol(&self) -> Seq<char> {
        self.protocol@
    }

    pub closed spec fn spec_validate_certs(&self) -> bool {
        self.validate_certs
    }

    pub closed spec fn spec_login(&self) -> L {
        self.login
    }

    /// Use plain HTTP where `use_http` holds, else HTTPS.
    pub fn use_http(self, use_http: bool) -> (r: Self)
        ensures
            r.spec_host() == self.spec_host(),
            r.spec_protocol() == (if use_http {
                "http"@
            } else {
                "https"@
            }),
            r.spec_validate_certs() == self.spec_validate_certs(),
            r.spec_login() == self.spec_login(),
    {
        let mut b = self;
        b.protocol = if use_http {
            "http"
        } else {
            "https"
        };
        b
    }

    /// Whether the server's certificate is checked.
    pub fn validate_certs(self, validate: bool) -> (r: Self)
        ensures
            r.spec_host() == self.spec_host(),
            r.spec_protocol() == self.spec_protocol(),
            r.spec_validate_certs() == validate,
            r.spec_login() == self.spec_login(),
    {
        let mut b = self;
        b.validate_certs = validate;
        b
    }

    pub fn host(&self) -> (r: &'h str)
        ensures
            r@ == self.spec_host(),
    {
        self.host
    }

    pub fn protocol(&self) -> (r: &'static str)
        ensures
            r@ == self.spec_protocol(),
    {
        self.protocol
    }

    pub fn validates_certs(&self) -> (r: bool)
        ensures
            r == self.spec_validate_certs(),
    {
        self.validate_certs
    }

    pub fn login(&self) -> (r: &L)
        ensures
            *r == self.spec_login(),
    {
        &self.login
    }

    /// The API root, `<protocol>://<host>/api/v1/`, as `url` writes it.
    pub fn rest_url(&self) -> (r: Result<String, url::ParseError>)
        ensures
            r is Ok <==> parsed_url(rest_url_text(self.spec_protocol(), self.spec_host())) is Some,
            r matches Ok(u) ==> parsed_url(rest_url_text(self.spec_protocol(), self.spec_host()))
                == Some(u@),
    {
        let mut text = String::from_str(self.protocol);
        text.append("://");
        text.append(self.host);
        text.append("/api/v1/");
        parse_url(text.as_str())
    }
}

} // verus!
