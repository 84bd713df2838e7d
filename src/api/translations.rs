//! Translations of terms into the locales of a project.

use vstd::prelude::*;
use vstd::string::StringExecFns;
use crate::error::DecodeError;
use crate::json::{Json, JsonV};
use crate::model::{field, field_spec, FromJson};
use crate::api::locales::{Locale, LocaleCode, LocaleView};
use crate::api::{AccessDates, ProjectId, TermId};
use crate::auth::Authenticated;
use crate::endpoint::{json_body, object_text, Endpoint, Method};
use crate::error::BodyError;
use crate::query::DefaultModel;
use crate::response::Envelope;

verus! {

/// The translation of a term.
#[derive(Clone, Debug, PartialEq, Eq, Hash, PartialOrd, Ord)]
pub struct Translation {
    pub term_id: TermId,
    pub value: String,
    pub labels: Vec<String>,
    pub date: AccessDates,
}

/// The mathematical value of a [`Translation`].
pub struct TranslationView {
    pub term_id: Seq<char>,
    pub value: Seq<char>,
    pub labels: Seq<Seq<char>>,
    pub date: AccessDates,
}

impl DeepView for Translation {
    type V = TranslationView;

    open spec fn deep_view(&self) -> TranslationView {
        TranslationView {
            term_id: self.term_id.deep_view(),
            value: self.value.deep_view(),
            labels: self.labels.deep_view(),
            date: self.date.deep_view(),
        }
    }
}

impl FromJson for Translation {
    open spec fn spec_decode(v: JsonV) -> Option<TranslationView> {
        match (
            field_spec::<TermId>(v, "termId"@),
            field_spec::<String>(v, "value"@),
            field_spec::<Vec<String>>(v, "labels"@),
            field_spec::<AccessDates>(v, "date"@),
        ) {
            (Some(term_id), Some(value), Some(labels), Some(date)) => Some(
                TranslationView { term_id, value, labels, date },
            ),
            _ => None,
        }
    }

    open spec fn spec_model_name() -> Seq<char> {
        "Translation"@
    }

    fn model_name() -> (r: &'static str) {
        "Translation"
    }

    fn from_json(v: &Json) -> (r: Result<Translation, DecodeError>) {
        let term_id = field::<TermId>(v, "termId")?;
        let value = field::<String>(v, "value")?;
        let labels = field::<Vec<String>>(v, "labels")?;
        let date = field::<AccessDates>(v, "date")?;
        Ok(Translation { term_id, value, labels, date })
    }
}

/// Type-safe wrapper for a project locale id.
#[derive(PartialEq, Eq, Clone, Debug, Hash, PartialOrd, Ord)]
pub struct ProjectLocaleId(pub String);

impl ProjectLocaleId {
    /// Create a new id.
    pub fn new(id: &str) -> (r: Self)
        ensures
            r.0@ == id@,
    {
        ProjectLocaleId(String::from_str(id))
    }

    /// The value of the id.
    pub fn value(&self) -> (r: &str)
        ensures
            r@ == self.0@,
    {
        self.0.as_str()
    }
}

impl DeepView for ProjectLocaleId {
    type V = Seq<char>;

    open spec fn deep_view(&self) -> Seq<char> {
        self.0@
    }
}

impl FromJson for ProjectLocaleId {
    open spec fn spec_decode(v: JsonV) -> Option<Seq<char>> {
        String::spec_decode(v)
    }

    open spec fn spec_model_name() -> Seq<char> {
        "ProjectLocaleId"@
    }

    fn model_name() -> (r: &'static str) {
        "ProjectLocaleId"
    }

    fn from_json(v: &Json) -> (r: Result<ProjectLocaleId, DecodeError>) {
        let s = String::from_json(v)?;
        Ok(ProjectLocaleId(s))
    }
}

/// A locale of a project.
#[derive(Clone, Debug, PartialEq, Eq, Hash, PartialOrd, Ord)]
pub struct ProjectLocale {
    pub id: ProjectLocaleId,
    pub locale: Locale,
    pub date: AccessDates,
}

/// The mathematical value of a [`ProjectLocale`].
pub struct ProjectLocaleView {
    pub id: Seq<char>,
    pub locale: LocaleView,
    pub date: AccessDates,
}

impl DeepView for ProjectLocale {
    type V = ProjectLocaleView;

    open spec fn deep_view(&self) -> ProjectLocaleView {
        ProjectLocaleView {
            id: self.id.deep_view(),
            locale: self.locale.deep_view(),
            date: self.date.deep_view(),
        }
    }
}

impl FromJson for ProjectLocale {
    open spec fn spec_decode(v: JsonV) -> Option<ProjectLocaleView> {
        match (
            field_spec::<ProjectLocaleId>(v, "id"@),
            field_spec::<Locale>(v, "locale"@),
            field_spec::<AccessDates>(v, "date"@),
        ) {
            (Some(id), Some(locale), Some(date)) => Some(
                ProjectLocaleView { id, locale, date },
            ),
            _ => None,
        }
    }

    open spec fn spec_model_name() -> Seq<char> {
        "ProjectLocale"@
    }

    fn model_name() -> (r: &'static str) {
        "ProjectLocale"
    }

    fn from_json(v: &Json) -> (r: Result<ProjectLocale, DecodeError>) {
        let id = field::<ProjectLocaleId>(v, "id")?;
        let locale = field::<Locale>(v, "locale")?;
        let date = field::<AccessDates>(v, "date")?;
        Ok(ProjectLocale { id, locale, date })
    }
}

/// Adds a locale to a project.
#[derive(PartialEq, Eq, Clone, Debug, Hash, PartialOrd, Ord)]
pub struct CreateLocale {
    pub project: ProjectId,
    pub code: LocaleCode,
}

impl CreateLocale {
    /// Creates the endpoint.
    pub fn new(project: ProjectId, code: LocaleCode) -> (r: Self)
        ensures
            r.project == project,
            r.code == code,
    {
        CreateLocale { project, code }
    }
}

impl Endpoint for CreateLocale {
    type AccessControl = Authenticated;

    open spec fn spec_method(&self) -> Method {
        Method::Post
    }

    open spec fn spec_path(&self) -> Seq<char> {
        "projects/"@ + self.project.0@ + "/translations"@
    }

    open spec fn spec_body(&self) -> Result<Option<Seq<char>>, BodyError> {
        Ok(Some(object_text(seq![("code"@, Some(self.code.0@))])))
    }

    fn method(&self) -> (r: Method) {
        Method::Post
    }

    fn endpoint(&self) -> (r: String) {
        let mut p = String::from_str("projects/");
        p.append(self.project.value());
        p.append("/translations");
        p
    }

    fn body(&self) -> (r: Result<Option<(&'static str, Vec<u8>)>, BodyError>) {
        let fields = vec![("code", Some(self.code.value()))];
        assert(fields.deep_view() =~= seq![("code"@, Some(self.code.0@))]);
        json_body(&fields)
    }
}

impl DefaultModel for CreateLocale {
    type Model = ProjectLocale;

    open spec fn spec_envelope() -> Envelope {
        Envelope::Data
    }

    fn envelope() -> (r: Envelope) {
        Envelope::Data
    }
}

/// Removes a locale from a project.
#[derive(PartialEq, Eq, Clone, Debug, Hash, PartialOrd, Ord)]
pub struct DeleteLocale {
    pub project_id: ProjectId,
    pub locale: LocaleCode,
}

impl DeleteLocale {
    /// Creates the endpoint.
    pub fn new(project_id: ProjectId, locale: LocaleCode) -> (r: Self)
        ensures
            r.project_id == project_id,
            r.locale == locale,
    {
        DeleteLocale { project_id, locale }
    }
}

impl Endpoint for DeleteLocale {
    type AccessControl = Authenticated;

    open spec fn spec_method(&self) -> Method {
        Method::Delete
    }

    open spec fn spec_path(&self) -> Seq<char> {
        "projects/"@ + self.project_id.0@ + "/translations/"@ + self.locale.0@
    }

    open spec fn spec_body(&self) -> Result<Option<Seq<char>>, BodyError> {
        Ok(None)
    }

    fn method(&self) -> (r: Method) {
        Method::Delete
    }

    fn endpoint(&self) -> (r: String) {
        let mut p = String::from_str("projects/");
        p.append(self.project_id.value());
        p.append("/translations/");
        p.append(self.locale.value());
        p
    }

    fn body(&self) -> (r: Result<Option<(&'static str, Vec<u8>)>, BodyError>) {
        Ok(None)
    }
}

impl DefaultModel for DeleteLocale {
    type Model = ();

    open spec fn spec_envelope() -> Envelope {
        Envelope::Bare
    }

    fn envelope() -> (r: Envelope) {
        Envelope::Bare
    }
}

/// Changes the translation of a term into a locale.
#[derive(PartialEq, Eq, Clone, Debug, Hash, PartialOrd, Ord)]
pub struct EditTranslation {
    pub project_id: ProjectId,
    pub locale: LocaleCode,
    pub term_id: TermId,
    pub value: String,
}

impl EditTranslation {
    /// Creates the endpoint.
    pub fn new(project_id: ProjectId, locale: LocaleCode, term_id: TermId, value: &str) -> (r: Self)
        ensures
            r.project_id == project_id,
            r.locale == locale,
            r.term_id == term_id,
            r.value@ == value@,
    {
        EditTranslation { project_id, locale, term_id, value: String::from_str(value) }
    }
}

impl Endpoint for EditTranslation {
    type AccessControl = Authenticated;

    open spec fn spec_method(&self) -> Method {
        Method::Patch
    }

    open spec fn spec_path(&self) -> Seq<char> {
        "projects/"@ + self.project_id.0@ + "/translations/"@ + self.locale.0@
    }

    open spec fn spec_body(&self) -> Result<Option<Seq<char>>, BodyError> {
        Ok(Some(object_text(seq![("termId"@, Some(self.term_id.0@)), ("value"@, Some(self.value@))])))
    }

    fn method(&self) -> (r: Method) {
        Method::Patch
    }

    fn endpoint(&self) -> (r: String) {
        let mut p = String::from_str("projects/");
        p.append(self.project_id.value());
        p.append("/translations/");
        p.append(self.locale.value());
        p
    }

    fn body(&self) -> (r: Result<Option<(&'static str, Vec<u8>)>, BodyError>) {
        let fields = vec![("termId", Some(self.term_id.value())), ("value", Some(self.value.as_str()))];
        assert(fields.deep_view() =~= seq![("termId"@, Some(self.term_id.0@)), ("value"@, Some(self.value@))]);
        json_body(&fields)
    }
}

impl DefaultModel for EditTranslation {
    type Model = Translation;

    open spec fn spec_envelope() -> Envelope {
        Envelope::Data
    }

    fn envelope() -> (r: Envelope) {
        Envelope::Data
    }
}

/// Lists the translations of a project into one locale.
#[derive(PartialEq, Eq, Clone, Debug, Hash, PartialOrd, Ord)]
pub struct Translations {
    pub project_id: ProjectId,
    pub locale_code: LocaleCode,
}

impl Translations {
    /// Creates the endpoint.
    pub fn new(project_id: ProjectId, locale_code: LocaleCode) -> (r: Self)
        ensures
            r.project_id == project_id,
            r.locale_code == locale_code,
    {
        Translations { project_id, locale_code }
    }
}

impl Endpoint for Translations {
    type AccessControl = Authenticated;

    open spec fn spec_method(&self) -> Method {
        Method::Get
    }

    open spec fn spec_path(&self) -> Seq<char> {
        "projects/"@ + self.project_id.0@ + "/translations/"@ + self.locale_code.0@
    }

    open spec fn spec_body(&self) -> Result<Option<Seq<char>>, BodyError> {
        Ok(None)
    }

    fn method(&self) -> (r: Method) {
        Method::Get
    }

    fn endpoint(&self) -> (r: String) {
        let mut p = String::from_str("projects/");
        p.append(self.project_id.value());
        p.append("/translations/");
        p.append(self.locale_code.value());
        p
    }

    fn body(&self) -> (r: Result<Option<(&'static str, Vec<u8>)>, BodyError>) {
        Ok(None)
    }
}

impl DefaultModel for Translations {
    type Model = Vec<Translation>;

    open spec fn spec_envelope() -> Envelope {
        Envelope::Data
    }

    fn envelope() -> (r: Envelope) {
        Envelope::Data
    }
}

/// Lists the locales of a project.
#[derive(PartialEq, Eq, Clone, Debug, Hash, PartialOrd, Ord)]
pub struct Locales(pub ProjectId);

impl Endpoint for Locales {
    type AccessControl = Authenticated;

    open spec fn spec_method(&self) -> Method {
        Method::Get
    }

    open spec fn spec_path(&self) -> Seq<char> {
        "projects/"@ + self.0.0@ + "/translations"@
    }

    open spec fn spec_body(&self) -> Result<Option<Seq<char>>, BodyError> {
        Ok(None)
    }

    fn method(&self) -> (r: Method) {
        Method::Get
    }

    fn endpoint(&self) -> (r: String) {
        let mut p = String::from_str("projects/");
        p.append(self.0.value());
        p.append("/translations");
        p
    }

    fn body(&self) -> (r: Result<Option<(&'static str, Vec<u8>)>, BodyError>) {
        Ok(None)
    }
}

impl DefaultModel for Locales {
    type Model = Vec<ProjectLocale>;

    open spec fn spec_envelope() -> Envelope {
        Envelope::Data
    }

    fn envelope() -> (r: Envelope) {
        Envelope::Data
    }
}

} // verus!
