//! Endpoints of the service and the models they answer with.

use vstd::prelude::*;
use vstd::string::StringExecFns;
use crate::error::DecodeError;
use crate::json::{Json, JsonV};
use crate::model::{field, field_spec, FromJson};

pub mod auth;
pub mod labels;
pub mod locales;
pub mod projects;
pub mod terms;
pub mod translations;
pub mod users;

verus! {

/// Type-safe access token wrapper.
#[derive(PartialEq, Eq, Clone, Debug, Hash, PartialOrd, Ord)]
pub struct AccessToken(pub String);

impl AccessToken {
    /// Create a new id.
    pub fn new(id: &str) -> (r: Self)
        ensures
            r.0@ == id@,
    {
        AccessToken(String::from_str(id))
    }

    /// The value of the id.
    pub fn value(&self) -> (r: &str)
        ensures
            r@ == self.0@,
    {
        self.0.as_str()
    }
}

impl DeepView for AccessToken {
    type V = Seq<char>;

    open spec fn deep_view(&self) -> Seq<char> {
        self.0@
    }
}

impl FromJson for AccessToken {
    open spec fn spec_decode(v: JsonV) -> Option<Seq<char>> {
        String::spec_decode(v)
    }

    open spec fn spec_model_name() -> Seq<char> {
        "AccessToken"@
    }

    fn model_name() -> (r: &'static str) {
        "AccessToken"
    }

    fn from_json(v: &Json) -> (r: Result<AccessToken, DecodeError>) {
        let s = String::from_json(v)?;
        Ok(AccessToken(s))
    }
}

/// Type-safe user id wrapper.
#[derive(PartialEq, Eq, Clone, Debug, Hash, PartialOrd, Ord)]
pub struct UserId(pub String);

impl UserId {
    /// Create a new id.
    pub fn new(id: &str) -> (r: Self)
        ensures
            r.0@ == id@,
    {
        UserId(String::from_str(id))
    }

    /// The value of the id.
    pub fn value(&self) -> (r: &str)
        ensures
            r@ == self.0@,
    {
        self.0.as_str()
    }
}

impl DeepView for UserId {
    type V = Seq<char>;

    open spec fn deep_view(&self) -> Seq<char> {
        self.0@
    }
}

impl FromJson for UserId {
    open spec fn spec_decode(v: JsonV) -> Option<Seq<char>> {
        String::spec_decode(v)
    }

    open spec fn spec_model_name() -> Seq<char> {
        "UserId"@
    }

    fn model_name() -> (r: &'static str) {
        "UserId"
    }

    fn from_json(v: &Json) -> (r: Result<UserId, DecodeError>) {
        let s = String::from_json(v)?;
        Ok(UserId(s))
    }
}

/// Type-safe project id wrapper.
#[derive(PartialEq, Eq, Clone, Debug, Hash, PartialOrd, Ord)]
pub struct ProjectId(pub String);

impl ProjectId {
    /// Create a new id.
    pub fn new(id: &str) -> (r: Self)
        ensures
            r.0@ == id@,
    {
        ProjectId(String::from_str(id))
    }

    /// The value of the id.
    pub fn value(&self) -> (r: &str)
        ensures
            r@ == self.0@,
    {
        self.0.as_str()
    }
}

impl DeepView for ProjectId {
    type V = Seq<char>;

    open spec fn deep_view(&self) -> Seq<char> {
        self.0@
    }
}

impl FromJson for ProjectId {
    open spec fn spec_decode(v: JsonV) -> Option<Seq<char>> {
        String::spec_decode(v)
    }

    open spec fn spec_model_name() -> Seq<char> {
        "ProjectId"@
    }

    fn model_name() -> (r: &'static str) {
        "ProjectId"
    }

    fn from_json(v: &Json) -> (r: Result<ProjectId, DecodeError>) {
        let s = String::from_json(v)?;
        Ok(ProjectId(s))
    }
}

/// Type-safe term id wrapper.
#[derive(PartialEq, Eq, Clone, Debug, Hash, PartialOrd, Ord)]
pub struct TermId(pub String);

impl TermId {
    /// Create a new id.
    pub fn new(id: &str) -> (r: Self)
        ensures
            r.0@ == id@,
    {
        TermId(String::from_str(id))
    }

    /// The value of the id.
    pub fn value(&self) -> (r: &str)
        ensures
            r@ == self.0@,
    {
        self.0.as_str()
    }
}

impl DeepView for TermId {
    type V = Seq<char>;

    open spec fn deep_view(&self) -> Seq<char> {
        self.0@
    }
}

impl FromJson for TermId {
    open spec fn spec_decode(v: JsonV) -> Option<Seq<char>> {
        String::spec_decode(v)
    }

    open spec fn spec_model_name() -> Seq<char> {
        "TermId"@
    }

    fn model_name() -> (r: &'static str) {
        "TermId"
    }

    fn from_json(v: &Json) -> (r: Result<TermId, DecodeError>) {
        let s = String::from_json(v)?;
        Ok(TermId(s))
    }
}

/// An instant, as seconds and nanoseconds since the Unix epoch in UTC.
#[derive(PartialEq, Eq, Structural, Clone, Copy, Debug, Hash, PartialOrd, Ord)]
pub struct Timestamp {
    pub secs: i64,
    pub nanos: u32,
}

/// The instant that `chrono` reads from an RFC 3339 date and time, where
/// `s` is one.
pub uninterp spec fn utc_instant(s: Seq<char>) -> Option<(i64, u32)>;

/// Relies on `chrono`'s `FromStr` for `DateTime<Utc>` (a relaxed RFC 3339
/// reader), taken apart into its Unix seconds and their nanoseconds.
#[verifier::external_body]
fn parse_instant(s: &str) -> (r: Option<(i64, u32)>)
    ensures
        r == utc_instant(s@),
{
    s.parse::<chrono::DateTime<chrono::Utc>>().ok().map(|d| (d.timestamp(), d.timestamp_subsec_nanos()))
}

impl DeepView for Timestamp {
    type V = Timestamp;

    open spec fn deep_view(&self) -> Timestamp {
        *self
    }
}

/// An RFC 3339 date and time string.
impl FromJson for Timestamp {
    open spec fn spec_decode(v: JsonV) -> Option<Timestamp> {
        match v {
            JsonV::Str(s) => match utc_instant(s) {
                Some((secs, nanos)) => Some(Timestamp { secs, nanos }),
                None => None,
            },
            _ => None,
        }
    }

    open spec fn spec_model_name() -> Seq<char> {
        "Timestamp"@
    }

    fn model_name() -> (r: &'static str) {
        "Timestamp"
    }

    fn from_json(v: &Json) -> (r: Result<Timestamp, DecodeError>) {
        match v {
            Json::Str(s) => match parse_instant(s.as_str()) {
                Some((secs, nanos)) => Ok(Timestamp { secs, nanos }),
                None => Err(DecodeError::InvalidType { expected: "an RFC 3339 date and time" }),
            },
            _ => Err(DecodeError::InvalidType { expected: "an RFC 3339 date and time" }),
        }
    }
}

/// When a record was created and last modified.
#[derive(PartialEq, Eq, Structural, Clone, Copy, Debug, Hash, PartialOrd, Ord)]
pub struct AccessDates {
    pub created: Timestamp,
    pub modified: Timestamp,
}

impl DeepView for AccessDates {
    type V = AccessDates;

    open spec fn deep_view(&self) -> AccessDates {
        *self
    }
}

impl FromJson for AccessDates {
    open spec fn spec_decode(v: JsonV) -> Option<AccessDates> {
        match (field_spec::<Timestamp>(v, "created"@), field_spec::<Timestamp>(v, "modified"@)) {
            (Some(created), Some(modified)) => Some(AccessDates { created, modified }),
            _ => None,
        }
    }

    open spec fn spec_model_name() -> Seq<char> {
        "AccessDates"@
    }

    fn model_name() -> (r: &'static str) {
        "AccessDates"
    }

    fn from_json(v: &Json) -> (r: Result<AccessDates, DecodeError>) {
        let created = field::<Timestamp>(v, "created")?;
        let modified = field::<Timestamp>(v, "modified")?;
        Ok(AccessDates { created, modified })
    }
}

/// A user's role in a project.
#[derive(PartialEq, Eq, Structural, Clone, Copy, Debug, Hash, PartialOrd, Ord)]
pub enum Role {
    Admin,
    Editor,
    Viewer,
}

impl DeepView for Role {
    type V = Role;

    open spec fn deep_view(&self) -> Role {
        *self
    }
}

/// Whether `s` holds the text `lit`.
pub fn text_is(s: &String, lit: &str) -> (r: bool)
    ensures
        r == (s@ == lit@),
{
    *s == String::from_str(lit)
}

/// One of the strings `admin`, `editor`, `viewer`.
impl FromJson for Role {
    open spec fn spec_decode(v: JsonV) -> Option<Role> {
        match v {
            JsonV::Str(s) => if s == "admin"@ {
                Some(Role::Admin)
            } else if s == "editor"@ {
                Some(Role::Editor)
            } else if s == "viewer"@ {
                Some(Role::Viewer)
            } else {
                None
            },
            _ => None,
        }
    }

    open spec fn spec_model_name() -> Seq<char> {
        "Role"@
    }

    fn model_name() -> (r: &'static str) {
        "Role"
    }

    fn from_json(v: &Json) -> (r: Result<Role, DecodeError>) {
        match v {
            Json::Str(s) => if text_is(s, "admin") {
                Ok(Role::Admin)
            } else if text_is(s, "editor") {
                Ok(Role::Editor)
            } else if text_is(s, "viewer") {
                Ok(Role::Viewer)
            } else {
                Err(DecodeError::InvalidType { expected: "a role" })
            },
            _ => Err(DecodeError::InvalidType { expected: "a role" }),
        }
    }
}

/// The text of the URL that `url` reads from `s`, where `s` is one.
pub uninterp spec fn parsed_url(s: Seq<char>) -> Option<Seq<char>>;

/// Relies on `url::Url::parse`: the URL's serialization, or the error.
#[verifier::external_body]
pub(crate) fn parse_url(s: &str) -> (r: Result<String, url::ParseError>)
    ensures
        r is Ok <==> parsed_url(s@) is Some,
        r matches Ok(u) ==> parsed_url(s@) == Some(u@),
{
    url::Url::parse(s).map(|u| u.to_string())
}

} // verus!
