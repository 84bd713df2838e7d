//! Projects.

use vstd::prelude::*;
use vstd::string::StringExecFns;
use crate::error::DecodeError;
use crate::json::{Json, JsonV};
use crate::model::{field, field_spec, FromJson};
use crate::api::{AccessDates, ProjectId, Role};
use crate::auth::Authenticated;
use crate::endpoint::{json_body, object_text, Endpoint, Method};
use crate::error::BodyError;
use crate::query::DefaultModel;
use crate::response::Envelope;

verus! {

/// A project.
#[derive(Clone, Debug, PartialEq, Eq, Hash, PartialOrd, Ord)]
pub struct Project {
    pub id: ProjectId,
    pub name: String,
    pub description: String,
    pub locales_count: u64,
    pub terms_count: u64,
    pub role: Role,
    pub date: AccessDates,
}

/// The mathematical value of a [`Project`].
pub struct ProjectView {
    pub id: Seq<char>,
    pub name: Seq<char>,
    pub description: Seq<char>,
    pub locales_count: u64,
    pub terms_count: u64,
    pub role: Role,
    pub date: AccessDates,
}

impl DeepView for Project {
    type V = ProjectView;

    open spec fn deep_view(&self) -> ProjectView {
        ProjectView {
            id: self.id.deep_view(),
            name: self.name.deep_view(),
            description: self.description.deep_view(),
            locales_count: self.locales_count.deep_view(),
            terms_count: self.terms_count.deep_view(),
            role: self.role.deep_view(),
            date: self.date.deep_view(),
        }
    }
}

impl FromJson for Project {
    open spec fn spec_decode(v: JsonV) -> Option<ProjectView> {
        match (
            field_spec::<ProjectId>(v, "id"@),
            field_spec::<String>(v, "name"@),
            field_spec::<String>(v, "description"@),
            field_spec::<u64>(v, "localesCount"@),
            field_spec::<u64>(v, "termsCount"@),
            field_spec::<Role>(v, "role"@),
            field_spec::<AccessDates>(v, "date"@),
        ) {
            (Some(id), Some(name), Some(description), Some(locales_count), Some(terms_count), Some(role), Some(date)) => Some(
                ProjectView { id, name, description, locales_count, terms_count, role, date },
            ),
            _ => None,
        }
    }

    open spec fn spec_model_name() -> Seq<char> {
        "Project"@
    }

    fn model_name() -> (r: &'static str) {
        "Project"
    }

    fn from_json(v: &Json) -> (r: Result<Project, DecodeError>) {
        let id = field::<ProjectId>(v, "id")?;
        let name = field::<String>(v, "name")?;
        let description = field::<String>(v, "description")?;
        let locales_count = field::<u64>(v, "localesCount")?;
        let terms_count = field::<u64>(v, "termsCount")?;
        let role = field::<Role>(v, "role")?;
        let date = field::<AccessDates>(v, "date")?;
        Ok(Project { id, name, description, locales_count, terms_count, role, date })
    }
}

/// Creates a project.
#[derive(PartialEq, Eq, Clone, Debug, Hash, PartialOrd, Ord)]
pub struct CreateProject {
    pub name: String,
    pub description: String,
}

impl CreateProject {
    /// Creates the endpoint.
    pub fn new(name: &str, description: &str) -> (r: Self)
        ensures
            r.name@ == name@,
            r.description@ == description@,
    {
        CreateProject { name: String::from_str(name), description: String::from_str(description) }
    }
}

impl Endpoint for CreateProject {
    type AccessControl = Authenticated;

    open spec fn spec_method(&self) -> Method {
        Method::Post
    }

    open spec fn spec_path(&self) -> Seq<char> {
        "projects"@
    }

    open spec fn spec_body(&self) -> Result<Option<Seq<char>>, BodyError> {
        Ok(Some(object_text(seq![("name"@, Some(self.name@)), ("description"@, Some(self.description@))])))
    }

    fn method(&self) -> (r: Method) {
        Method::Post
    }

    fn endpoint(&self) -> (r: String) {
        String::from_str("projects")
    }

    fn body(&self) -> (r: Result<Option<(&'static str, Vec<u8>)>, BodyError>) {
        let fields = vec![("name", Some(self.name.as_str())), ("description", Some(self.description.as_str()))];
        assert(fields.deep_view() =~= seq![("name"@, Some(self.name@)), ("description"@, Some(self.description@))]);
        json_body(&fields)
    }
}

impl DefaultModel for CreateProject {
    type Model = Project;

    open spec fn spec_envelope() -> Envelope {
        Envelope::Data
    }

    fn envelope() -> (r: Envelope) {
        Envelope::Data
    }
}

/// Deletes a project.
#[derive(PartialEq, Eq, Clone, Debug, Hash, PartialOrd, Ord)]
pub struct DeleteProject(pub ProjectId);

impl Endpoint for DeleteProject {
    type AccessControl = Authenticated;

    open spec fn spec_method(&self) -> Method {
        Method::Delete
    }

    open spec fn spec_path(&self) -> Seq<char> {
        "projects/"@ + self.0.0@
    }

    open spec fn spec_body(&self) -> Result<Option<Seq<char>>, BodyError> {
        Ok(None)
    }

    fn method(&self) -> (r: Method) {
        Method::Delete
    }

    fn endpoint(&self) -> (r: String) {
        let mut p = String::from_str("projects/");
        p.append(self.0.value());
        p
    }

    fn body(&self) -> (r: Result<Option<(&'static str, Vec<u8>)>, BodyError>) {
        Ok(None)
    }
}

impl DefaultModel for DeleteProject {
    type Model = ();

    open spec fn spec_envelope() -> Envelope {
        Envelope::Bare
    }

    fn envelope() -> (r: Envelope) {
        Envelope::Bare
    }
}

/// Changes a project's name and description.
#[derive(PartialEq, Eq, Clone, Debug, Hash, PartialOrd, Ord)]
pub struct EditProject {
    pub id: ProjectId,
    pub name: String,
    pub description: String,
}

impl EditProject {
    /// Creates the endpoint.
    pub fn new(id: ProjectId, name: &str, description: &str) -> (r: Self)
        ensures
            r.id == id,
            r.name@ == name@,
            r.description@ == description@,
    {
        EditProject { id, name: String::from_str(name), description: String::from_str(description) }
    }
}

impl Endpoint for EditProject {
    type AccessControl = Authenticated;

    open spec fn spec_method(&self) -> Method {
        Method::Patch
    }

    open spec fn spec_path(&self) -> Seq<char> {
        "projects/"@ + self.id.0@
    }

    open spec fn spec_body(&self) -> Result<Option<Seq<char>>, BodyError> {
        Ok(Some(object_text(seq![("name"@, Some(self.name@)), ("description"@, Some(self.description@))])))
    }

    fn method(&self) -> (r: Method) {
        Method::Patch
    }

    fn endpoint(&self) -> (r: String) {
        let mut p = String::from_str("projects/");
        p.append(self.id.value());
        p
    }

    fn body(&self) -> (r: Result<Option<(&'static str, Vec<u8>)>, BodyError>) {
        let fields = vec![("name", Some(self.name.as_str())), ("description", Some(self.description.as_str()))];
        assert(fields.deep_view() =~= seq![("name"@, Some(self.name@)), ("description"@, Some(self.description@))]);
        json_body(&fields)
    }
}

impl DefaultModel for EditProject {
    type Model = Project;

    open spec fn spec_envelope() -> Envelope {
        Envelope::Data
    }

    fn envelope() -> (r: Envelope) {
        Envelope::Data
    }
}

/// Lists the projects of the user.
#[derive(PartialEq, Eq, Structural, Clone, Copy, Debug, Hash, PartialOrd, Ord)]
pub struct Projects;

impl Endpoint for Projects {
    type AccessControl = Authenticated;

    open spec fn spec_method(&self) -> Method {
        Method::Get
    }

    open spec fn spec_path(&self) -> Seq<char> {
        "projects"@
    }

    open spec fn spec_body(&self) -> Result<Option<Seq<char>>, BodyError> {
        Ok(None)
    }

    fn method(&self) -> (r: Method) {
        Method::Get
    }

    fn endpoint(&self) -> (r: String) {
        String::from_str("projects")
    }

    fn body(&self) -> (r: Result<Option<(&'static str, Vec<u8>)>, BodyError>) {
        Ok(None)
    }
}

impl DefaultModel for Projects {
    type Model = Vec<Project>;

    open spec fn spec_envelope() -> Envelope {
        Envelope::Data
    }

    fn envelope() -> (r: Envelope) {
        Envelope::Data
    }
}

/// Shows one project.
#[derive(PartialEq, Eq, Clone, Debug, Hash, PartialOrd, Ord)]
pub struct ShowProject(pub ProjectId);

impl Endpoint for ShowProject {
    type AccessControl = Authenticated;

    open spec fn spec_method(&self) -> Method {
        Method::Get
    }

    open spec fn spec_path(&self) -> Seq<char> {
        "projects/"@ + self.0.0@
    }

    open spec fn spec_body(&self) -> Result<Option<Seq<char>>, BodyError> {
        Ok(None)
    }

    fn method(&self) -> (r: Method) {
        Method::Get
    }

    fn endpoint(&self) -> (r: String) {
        let mut p = String::from_str("projects/");
        p.append(self.0.value());
        p
    }

    fn body(&self) -> (r: Result<Option<(&'static str, Vec<u8>)>, BodyError>) {
        Ok(None)
    }
}

impl DefaultModel for ShowProject {
    type Model = Project;

    open spec fn spec_envelope() -> Envelope {
        Envelope::Data
    }

    fn envelope() -> (r: Envelope) {
        Envelope::Data
    }
}

} // verus!
