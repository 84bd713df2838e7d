//! The signed-in user.

use vstd::prelude::*;
use vstd::string::StringExecFns;
use crate::error::DecodeError;
use crate::json::{Json, JsonV};
use crate::model::{field, field_spec, optional_field, optional_field_spec, FromJson};
use crate::api::UserId;
use crate::auth::Authenticated;
use crate::endpoint::{json_body, object_text, Endpoint, Method};
use crate::error::BodyError;
use crate::query::DefaultModel;
use crate::response::Envelope;

verus! {

/// Deletes the signed-in user.
#[derive(PartialEq, Eq, Structural, Clone, Copy, Debug, Hash, PartialOrd, Ord)]
pub struct DeleteMe;

impl Endpoint for DeleteMe {
    type AccessControl = Authenticated;

    open spec fn spec_method(&self) -> Method {
        Method::Delete
    }

    open spec fn spec_path(&self) -> Seq<char> {
        "users/me"@
    }

    open spec fn spec_body(&self) -> Result<Option<Seq<char>>, BodyError> {
        Ok(None)
    }

    fn method(&self) -> (r: Method) {
        Method::Delete
    }

    fn endpoint(&self) -> (r: String) {
        String::from_str("users/me")
    }

    fn body(&self) -> (r: Result<Option<(&'static str, Vec<u8>)>, BodyError>) {
        Ok(None)
    }
}

impl DefaultModel for DeleteMe {
    type Model = ();

    open spec fn spec_envelope() -> Envelope {
        Envelope::Bare
    }

    fn envelope() -> (r: Envelope) {
        Envelope::Bare
    }
}

/// Changes the name or email address of the signed-in user; a field left
/// `None` is sent as `null`.
#[derive(PartialEq, Eq, Clone, Debug, Hash, PartialOrd, Ord, Default)]
pub struct EditMe {
    pub name: Option<String>,
    pub email: Option<String>,
}

pub open spec fn opt_text(s: Option<String>) -> Option<Seq<char>> {
    match s {
        Some(t) => Some(t@),
        None => None,
    }
}

fn opt_str(s: &Option<String>) -> (r: Option<&str>)
    ensures
        r.deep_view() == opt_text(*s),
{
    match s {
        Some(t) => Some(t.as_str()),
        None => None,
    }
}

impl EditMe {
    /// Changes both name and email address.
    pub fn name_and_mail(name: &str, email: &str) -> (r: Self)
        ensures
            opt_text(r.name) == Some(name@),
            opt_text(r.email) == Some(email@),
    {
        EditMe { name: Some(String::from_str(name)), email: Some(String::from_str(email)) }
    }

    /// Changes the email address only.
    pub fn email(email: &str) -> (r: Self)
        ensures
            r.name is None,
            opt_text(r.email) == Some(email@),
    {
        EditMe { email: Some(String::from_str(email)), name: None }
    }

    /// Changes the name only.
    pub fn name(name: &str) -> (r: Self)
        ensures
            opt_text(r.name) == Some(name@),
            r.email is None,
    {
        EditMe { name: Some(String::from_str(name)), email: None }
    }
}

impl Endpoint for EditMe {
    type AccessControl = Authenticated;

    open spec fn spec_method(&self) -> Method {
        Method::Patch
    }

    open spec fn spec_path(&self) -> Seq<char> {
        "users/me"@
    }

    open spec fn spec_body(&self) -> Result<Option<Seq<char>>, BodyError> {
        Ok(Some(object_text(seq![("name"@, opt_text(self.name)), ("email"@, opt_text(self.email))])))
    }

    fn method(&self) -> (r: Method) {
        Method::Patch
    }

    fn endpoint(&self) -> (r: String) {
        String::from_str("users/me")
    }

    fn body(&self) -> (r: Result<Option<(&'static str, Vec<u8>)>, BodyError>) {
        let fields = vec![("name", opt_str(&self.name)), ("email", opt_str(&self.email))];
        assert(fields.deep_view() =~= seq![("name"@, opt_text(self.name)), ("email"@, opt_text(self.email))]);
        json_body(&fields)
    }
}

impl DefaultModel for EditMe {
    type Model = UserInfo;

    open spec fn spec_envelope() -> Envelope {
        Envelope::Data
    }

    fn envelope() -> (r: Envelope) {
        Envelope::Data
    }
}

/// Shows the signed-in user.
#[derive(PartialEq, Eq, Structural, Clone, Copy, Debug, Hash, PartialOrd, Ord)]
pub struct Me;

impl Endpoint for Me {
    type AccessControl = Authenticated;

    open spec fn spec_method(&self) -> Method {
        Method::Get
    }

    open spec fn spec_path(&self) -> Seq<char> {
        "users/me"@
    }

    open spec fn spec_body(&self) -> Result<Option<Seq<char>>, BodyError> {
        Ok(None)
    }

    fn method(&self) -> (r: Method) {
        Method::Get
    }

    fn endpoint(&self) -> (r: String) {
        String::from_str("users/me")
    }

    fn body(&self) -> (r: Result<Option<(&'static str, Vec<u8>)>, BodyError>) {
        Ok(None)
    }
}

impl DefaultModel for Me {
    type Model = UserInfo;

    open spec fn spec_envelope() -> Envelope {
        Envelope::Data
    }

    fn envelope() -> (r: Envelope) {
        Envelope::Data
    }
}

/// What the service knows of a user.
#[derive(Clone, Debug, PartialEq, Eq, Hash, PartialOrd, Ord)]
pub struct UserInfo {
    pub id: UserId,
    pub name: String,
    pub email: String,
    pub num_projects_created: Option<u64>,
}

/// The mathematical value of a [`UserInfo`].
pub struct UserInfoView {
    pub id: Seq<char>,
    pub name: Seq<char>,
    pub email: Seq<char>,
    pub num_projects_created: Option<u64>,
}

impl DeepView for UserInfo {
    type V = UserInfoView;

    open spec fn deep_view(&self) -> UserInfoView {
        UserInfoView {
            id: self.id.deep_view(),
            name: self.name.deep_view(),
            email: self.email.deep_view(),
            num_projects_created: self.num_projects_created.deep_view(),
        }
    }
}

impl FromJson for UserInfo {
    open spec fn spec_decode(v: JsonV) -> Option<UserInfoView> {
        match (
            field_spec::<UserId>(v, "id"@),
            field_spec::<String>(v, "name"@),
            field_spec::<String>(v, "email"@),
            optional_field_spec::<u64>(v, "numProjectsCreated"@),
        ) {
            (Some(id), Some(name), Some(email), Some(num_projects_created)) => Some(
                UserInfoView { id, name, email, num_projects_created },
            ),
            _ => None,
        }
    }

    open spec fn spec_model_name() -> Seq<char> {
        "UserInfo"@
    }

    fn model_name() -> (r: &'static str) {
        "UserInfo"
    }

    fn from_json(v: &Json) -> (r: Result<UserInfo, DecodeError>) {
        let id = field::<UserId>(v, "id")?;
        let name = field::<String>(v, "name")?;
        let email = field::<String>(v, "email")?;
        let num_projects_created = optional_field::<u64>(v, "numProjectsCreated")?;
        Ok(UserInfo { id, name, email, num_projects_created })
    }
}

} // verus!
