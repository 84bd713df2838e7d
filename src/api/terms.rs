//! Terms of a project.

use vstd::prelude::*;
use vstd::string::StringExecFns;
use crate::error::DecodeError;
use crate::json::{Json, JsonV};
use crate::model::{field, field_spec, FromJson};
use crate::api::labels::{Label, LabelView};
use crate::api::{AccessDates, ProjectId, TermId};
use crate::auth::Authenticated;
use crate::endpoint::{json_body, object_text, Endpoint, Method};
use crate::error::BodyError;
use crate::query::DefaultModel;
use crate::response::Envelope;

verus! {

/// A term.
#[derive(Clone, Debug, PartialEq, Eq, Hash, PartialOrd, Ord)]
pub struct Term {
    pub id: TermId,
    pub value: String,
    pub labels: Vec<Label>,
    pub date: AccessDates,
}

/// The mathematical value of a [`Term`].
pub struct TermView {
    pub id: Seq<char>,
    pub value: Seq<char>,
    pub labels: Seq<LabelView>,
    pub date: AccessDates,
}

impl DeepView for Term {
    type V = TermView;

    open spec fn deep_view(&self) -> TermView {
        TermView {
            id: self.id.deep_view(),
            value: self.value.deep_view(),
            labels: self.labels.deep_view(),
            date: self.date.deep_view(),
        }
    }
}

impl FromJson for Term {
    open spec fn spec_decode(v: JsonV) -> Option<TermView> {
        match (
            field_spec::<TermId>(v, "id"@),
            field_spec::<String>(v, "value"@),
            field_spec::<Vec<Label>>(v, "labels"@),
            field_spec::<AccessDates>(v, "date"@),
        ) {
            (Some(id), Some(value), Some(labels), Some(date)) => Some(
                TermView { id, value, labels, date },
            ),
            _ => None,
        }
    }

    open spec fn spec_model_name() -> Seq<char> {
        "Term"@
    }

    fn model_name() -> (r: &'static str) {
        "Term"
    }

    fn from_json(v: &Json) -> (r: Result<Term, DecodeError>) {
        let id = field::<TermId>(v, "id")?;
        let value = field::<String>(v, "value")?;
        let labels = field::<Vec<Label>>(v, "labels")?;
        let date = field::<AccessDates>(v, "date")?;
        Ok(Term { id, value, labels, date })
    }
}

/// Adds a term to a project.
#[derive(PartialEq, Eq, Clone, Debug, Hash, PartialOrd, Ord)]
pub struct CreateTerm {
    pub term: String,
    pub project: ProjectId,
}

impl CreateTerm {
    /// Creates the endpoint.
    pub fn new(term: &str, project: ProjectId) -> (r: Self)
        ensures
            r.term@ == term@,
            r.project == project,
    {
        CreateTerm { term: String::from_str(term), project }
    }
}

impl Endpoint for CreateTerm {
    type AccessControl = Authenticated;

    open spec fn spec_method(&self) -> Method {
        Method::Post
    }

    open spec fn spec_path(&self) -> Seq<char> {
        "projects/"@ + self.project.0@ + "/terms"@
    }

    open spec fn spec_body(&self) -> Result<Option<Seq<char>>, BodyError> {
        Ok(Some(object_text(seq![("value"@, Some(self.term@))])))
    }

    fn method(&self) -> (r: Method) {
        Method::Post
    }

    fn endpoint(&self) -> (r: String) {
        let mut p = String::from_str("projects/");
        p.append(self.project.value());
        p.append("/terms");
        p
    }

    fn body(&self) -> (r: Result<Option<(&'static str, Vec<u8>)>, BodyError>) {
        let fields = vec![("value", Some(self.term.as_str()))];
        assert(fields.deep_view() =~= seq![("value"@, Some(self.term@))]);
        json_body(&fields)
    }
}

impl DefaultModel for CreateTerm {
    type Model = Term;

    open spec fn spec_envelope() -> Envelope {
        Envelope::Data
    }

    fn envelope() -> (r: Envelope) {
        Envelope::Data
    }
}

/// Deletes a term.
#[derive(PartialEq, Eq, Clone, Debug, Hash, PartialOrd, Ord)]
pub struct DeleteTerm {
    pub project_id: ProjectId,
    pub term_id: TermId,
}

impl DeleteTerm {
    /// Creates the endpoint.
    pub fn new(project_id: ProjectId, term_id: TermId) -> (r: Self)
        ensures
            r.project_id == project_id,
            r.term_id == term_id,
    {
        DeleteTerm { project_id, term_id }
    }
}

impl Endpoint for DeleteTerm {
    type AccessControl = Authenticated;

    open spec fn spec_method(&self) -> Method {
        Method::Delete
    }

    open spec fn spec_path(&self) -> Seq<char> {
        "projects/"@ + self.project_id.0@ + "/terms/"@ + self.term_id.0@
    }

    open spec fn spec_body(&self) -> Result<Option<Seq<char>>, BodyError> {
        Ok(None)
    }

    fn method(&self) -> (r: Method) {
        Method::Delete
    }

    fn endpoint(&self) -> (r: String) {
        let mut p = String::from_str("projects/");
        p.append(self.project_id.value());
        p.append("/terms/");
        p.append(self.term_id.value());
        p
    }

    fn body(&self) -> (r: Result<Option<(&'static str, Vec<u8>)>, BodyError>) {
        Ok(None)
    }
}

impl DefaultModel for DeleteTerm {
    type Model = ();

    open spec fn spec_envelope() -> Envelope {
        Envelope::Bare
    }

    fn envelope() -> (r: Envelope) {
        Envelope::Bare
    }
}

/// Changes the text of a term.
#[derive(PartialEq, Eq, Clone, Debug, Hash, PartialOrd, Ord)]
pub struct EditTerm {
    pub project_id: ProjectId,
    pub term_id: TermId,
    pub value: String,
}

impl EditTerm {
    /// Creates the endpoint.
    pub fn new(project_id: ProjectId, term_id: TermId, value: &str) -> (r: Self)
        ensures
            r.project_id == project_id,
            r.term_id == term_id,
            r.value@ == value@,
    {
        EditTerm { project_id, term_id, value: String::from_str(value) }
    }
}

impl Endpoint for EditTerm {
    type AccessControl = Authenticated;

    open spec fn spec_method(&self) -> Method {
        Method::Patch
    }

    open spec fn spec_path(&self) -> Seq<char> {
        "projects/"@ + self.project_id.0@ + "/terms/"@ + self.term_id.0@
    }

    open spec fn spec_body(&self) -> Result<Option<Seq<char>>, BodyError> {
        Ok(Some(object_text(seq![("value"@, Some(self.value@))])))
    }

    fn method(&self) -> (r: Method) {
        Method::Patch
    }

    fn endpoint(&self) -> (r: String) {
        let mut p = String::from_str("projects/");
        p.append(self.project_id.value());
        p.append("/terms/");
        p.append(self.term_id.value());
        p
    }

    fn body(&self) -> (r: Result<Option<(&'static str, Vec<u8>)>, BodyError>) {
        let fields = vec![("value", Some(self.value.as_str()))];
        assert(fields.deep_view() =~= seq![("value"@, Some(self.value@))]);
        json_body(&fields)
    }
}

impl DefaultModel for EditTerm {
    type Model = Term;

    open spec fn spec_envelope() -> Envelope {
        Envelope::Data
    }

    fn envelope() -> (r: Envelope) {
        Envelope::Data
    }
}

/// Lists the terms of a project.
#[derive(PartialEq, Eq, Clone, Debug, Hash, PartialOrd, Ord)]
pub struct Terms(pub ProjectId);

impl Endpoint for Terms {
    type AccessControl = Authenticated;

    open spec fn spec_method(&self) -> Method {
        Method::Get
    }

    open spec fn spec_path(&self) -> Seq<char> {
        "projects/"@ + self.0.0@ + "/terms"@
    }

    open spec fn spec_body(&self) -> Result<Option<Seq<char>>, BodyError> {
        Ok(None)
    }

    fn method(&self) -> (r: Method) {
        Method::Get
    }

    fn endpoint(&self) -> (r: String) {
        let mut p = String::from_str("projects/");
        p.append(self.0.value());
        p.append("/terms");
        p
    }

    fn body(&self) -> (r: Result<Option<(&'static str, Vec<u8>)>, BodyError>) {
        Ok(None)
    }
}

impl DefaultModel for Terms {
    type Model = Vec<Term>;

    open spec fn spec_envelope() -> Envelope {
        Envelope::Data
    }

    fn envelope() -> (r: Envelope) {
        Envelope::Data
    }
}

} // verus!
