//! The locales that the service knows.

use vstd::prelude::*;
use vstd::string::StringExecFns;
use crate::error::DecodeError;
use crate::json::{Json, JsonV};
use crate::model::{field, field_spec, FromJson};
use crate::auth::Authenticated;
use crate::endpoint::{Endpoint, Method};
use crate::error::BodyError;
use crate::query::DefaultModel;
use crate::response::Envelope;

verus! {

/// Type-safe wrapper for a standardized locale code (like `en_US`).
#[derive(PartialEq, Eq, Clone, Debug, Hash, PartialOrd, Ord)]
pub struct LocaleCode(pub String);

impl LocaleCode {
    /// Create a new id.
    pub fn new(id: &str) -> (r: Self)
        ensures
            r.0@ == id@,
    {
        LocaleCode(String::from_str(id))
    }

    /// The value of the id.
    pub fn value(&self) -> (r: &str)
        ensures
            r@ == self.0@,
    {
        self.0.as_str()
    }
}

impl DeepView for LocaleCode {
    type V = Seq<char>;

    open spec fn deep_view(&self) -> Seq<char> {
        self.0@
    }
}

impl FromJson for LocaleCode {
    open spec fn spec_decode(v: JsonV) -> Option<Seq<char>> {
        String::spec_decode(v)
    }

    open spec fn spec_model_name() -> Seq<char> {
        "LocaleCode"@
    }

    fn model_name() -> (r: &'static str) {
        "LocaleCode"
    }

    fn from_json(v: &Json) -> (r: Result<LocaleCode, DecodeError>) {
        let s = String::from_json(v)?;
        Ok(LocaleCode(s))
    }
}

/// The locales that the service knows.
#[derive(PartialEq, Eq, Structural, Clone, Copy, Debug, Hash, PartialOrd, Ord)]
pub struct Locales;

impl Endpoint for Locales {
    type AccessControl = Authenticated;

    open spec fn spec_method(&self) -> Method {
        Method::Get
    }

    open spec fn spec_path(&self) -> Seq<char> {
        "locales"@
    }

    open spec fn spec_body(&self) -> Result<Option<Seq<char>>, BodyError> {
        Ok(None)
    }

    fn method(&self) -> (r: Method) {
        Method::Get
    }

    fn endpoint(&self) -> (r: String) {
        String::from_str("locales")
    }

    fn body(&self) -> (r: Result<Option<(&'static str, Vec<u8>)>, BodyError>) {
        Ok(None)
    }
}

impl DefaultModel for Locales {
    type Model = Vec<Locale>;

    open spec fn spec_envelope() -> Envelope {
        Envelope::Data
    }

    fn envelope() -> (r: Envelope) {
        Envelope::Data
    }
}

/// A locale.
#[derive(Clone, Debug, PartialEq, Eq, Hash, PartialOrd, Ord)]
pub struct Locale {
    pub code: LocaleCode,
    pub language: String,
    pub region: String,
}

/// The mathematical value of a [`Locale`].
pub struct LocaleView {
    pub code: Seq<char>,
    pub language: Seq<char>,
    pub region: Seq<char>,
}

impl DeepView for Locale {
    type V = LocaleView;

    open spec fn deep_view(&self) -> LocaleView {
        LocaleView {
            code: self.code.deep_view(),
            language: self.language.deep_view(),
            region: self.region.deep_view(),
        }
    }
}

impl FromJson for Locale {
    open spec fn spec_decode(v: JsonV) -> Option<LocaleView> {
        match (
            field_spec::<LocaleCode>(v, "code"@),
            field_spec::<String>(v, "language"@),
            field_spec::<String>(v, "region"@),
        ) {
            (Some(code), Some(language), Some(region)) => Some(
                LocaleView { code, language, region },
            ),
            _ => None,
        }
    }

    open spec fn spec_model_name() -> Seq<char> {
        "Locale"@
    }

    fn model_name() -> (r: &'static str) {
        "Locale"
    }

    fn from_json(v: &Json) -> (r: Result<Locale, DecodeError>) {
        let code = field::<LocaleCode>(v, "code")?;
        let language = field::<String>(v, "language")?;
        let region = field::<String>(v, "region")?;
        Ok(Locale { code, language, region })
    }
}

} // verus!
