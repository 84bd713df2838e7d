//! Signing up, signing in and changing the password.

use vstd::prelude::*;
use vstd::string::StringExecFns;
use crate::error::DecodeError;
use crate::json::{Json, JsonV};
use crate::model::{field, field_spec, FromJson};
use crate::api::{parse_url, parsed_url, UserId};
use crate::auth::{Authenticated, Unauthenticated};
use crate::endpoint::{json_body, object_text, Endpoint, Method};
use crate::error::BodyError;
use crate::query::DefaultModel;
use crate::response::Envelope;

verus! {

/// Changes the password of the signed-in user.
#[derive(PartialEq, Eq, Clone, Debug, Hash, PartialOrd, Ord)]
pub struct ChangePassword {
    pub old_password: String,
    pub new_password: String,
}

impl ChangePassword {
    /// Creates the endpoint.
    pub fn new(old: &str, new: &str) -> (r: Self)
        ensures
            r.old_password@ == old@,
            r.new_password@ == new@,
    {
        ChangePassword { old_password: String::from_str(old), new_password: String::from_str(new) }
    }
}

impl Endpoint for ChangePassword {
    type AccessControl = Authenticated;

    open spec fn spec_method(&self) -> Method {
        Method::Post
    }

    open spec fn spec_path(&self) -> Seq<char> {
        "auth/change-password"@
    }

    open spec fn spec_body(&self) -> Result<Option<Seq<char>>, BodyError> {
        Ok(Some(object_text(seq![("oldPassword"@, Some(self.old_password@)), ("newPassword"@, Some(self.new_password@))])))
    }

    fn method(&self) -> (r: Method) {
        Method::Post
    }

    fn endpoint(&self) -> (r: String) {
        String::from_str("auth/change-password")
    }

    fn body(&self) -> (r: Result<Option<(&'static str, Vec<u8>)>, BodyError>) {
        let fields = vec![("oldPassword", Some(self.old_password.as_str())), ("newPassword", Some(self.new_password.as_str()))];
        assert(fields.deep_view() =~= seq![("oldPassword"@, Some(self.old_password@)), ("newPassword"@, Some(self.new_password@))]);
        json_body(&fields)
    }
}

impl DefaultModel for ChangePassword {
    type Model = ();

    open spec fn spec_envelope() -> Envelope {
        Envelope::Bare
    }

    fn envelope() -> (r: Envelope) {
        Envelope::Bare
    }
}

/// Lists the external sign-in providers.
#[derive(PartialEq, Eq, Structural, Clone, Copy, Debug, Hash, PartialOrd, Ord)]
pub struct Providers;

impl Endpoint for Providers {
    type AccessControl = Unauthenticated;

    open spec fn spec_method(&self) -> Method {
        Method::Get
    }

    open spec fn spec_path(&self) -> Seq<char> {
        "auth/providers"@
    }

    open spec fn spec_body(&self) -> Result<Option<Seq<char>>, BodyError> {
        Ok(None)
    }

    fn method(&self) -> (r: Method) {
        Method::Get
    }

    fn endpoint(&self) -> (r: String) {
        String::from_str("auth/providers")
    }

    fn body(&self) -> (r: Result<Option<(&'static str, Vec<u8>)>, BodyError>) {
        Ok(None)
    }
}

impl DefaultModel for Providers {
    type Model = Vec<AuthProvider>;

    open spec fn spec_envelope() -> Envelope {
        Envelope::Bare
    }

    fn envelope() -> (r: Envelope) {
        Envelope::Bare
    }
}

/// An absolute URL, held as its serialization.
#[derive(PartialEq, Eq, Clone, Debug, Hash, PartialOrd, Ord)]
pub struct Url(pub String);

impl DeepView for Url {
    type V = Seq<char>;

    open spec fn deep_view(&self) -> Seq<char> {
        self.0@
    }
}

/// A string that holds a URL.
impl FromJson for Url {
    open spec fn spec_decode(v: JsonV) -> Option<Seq<char>> {
        match v {
            JsonV::Str(s) => parsed_url(s),
            _ => None,
        }
    }

    open spec fn spec_model_name() -> Seq<char> {
        "Url"@
    }

    fn model_name() -> (r: &'static str) {
        "Url"
    }

    fn from_json(v: &Json) -> (r: Result<Url, DecodeError>) {
        match v {
            Json::Str(s) => match parse_url(s.as_str()) {
                Ok(u) => Ok(Url(u)),
                Err(_) => Err(DecodeError::InvalidType { expected: "a URL" }),
            },
            _ => Err(DecodeError::InvalidType { expected: "a URL" }),
        }
    }
}

/// An external sign-in provider.
#[derive(Clone, Debug, PartialEq, Eq, Hash, PartialOrd, Ord)]
pub struct AuthProvider {
    pub slug: String,
    pub client_id: String,
    pub url: Url,
    pub redirect_url: Url,
}

/// The mathematical value of a [`AuthProvider`].
pub struct AuthProviderView {
    pub slug: Seq<char>,
    pub client_id: Seq<char>,
    pub url: Seq<char>,
    pub redirect_url: Seq<char>,
}

impl DeepView for AuthProvider {
    type V = AuthProviderView;

    open spec fn deep_view(&self) -> AuthProviderView {
        AuthProviderView {
            slug: self.slug.deep_view(),
            client_id: self.client_id.deep_view(),
            url: self.url.deep_view(),
            redirect_url: self.redirect_url.deep_view(),
        }
    }
}

impl FromJson for AuthProvider {
    open spec fn spec_decode(v: JsonV) -> Option<AuthProviderView> {
        match (
            field_spec::<String>(v, "slug"@),
            field_spec::<String>(v, "clientId"@),
            field_spec::<Url>(v, "url"@),
            field_spec::<Url>(v, "redirectUrl"@),
        ) {
            (Some(slug), Some(client_id), Some(url), Some(redirect_url)) => Some(
                AuthProviderView { slug, client_id, url, redirect_url },
            ),
            _ => None,
        }
    }

    open spec fn spec_model_name() -> Seq<char> {
        "AuthProvider"@
    }

    fn model_name() -> (r: &'static str) {
        "AuthProvider"
    }

    fn from_json(v: &Json) -> (r: Result<AuthProvider, DecodeError>) {
        let slug = field::<String>(v, "slug")?;
        let client_id = field::<String>(v, "clientId")?;
        let url = field::<Url>(v, "url")?;
        let redirect_url = field::<Url>(v, "redirectUrl")?;
        Ok(AuthProvider { slug, client_id, url, redirect_url })
    }
}

/// Creates a user.
#[derive(PartialEq, Eq, Clone, Debug, Hash, PartialOrd, Ord)]
pub struct Signup {
    pub name: String,
    pub email: String,
    pub password: String,
}

impl Signup {
    /// Creates the endpoint.
    pub fn new(name: &str, email: &str, password: &str) -> (r: Self)
        ensures
            r.name@ == name@,
            r.email@ == email@,
            r.password@ == password@,
    {
        Signup { name: String::from_str(name), password: String::from_str(password), email: String::from_str(email) }
    }
}

impl Endpoint for Signup {
    type AccessControl = Unauthenticated;

    open spec fn spec_method(&self) -> Method {
        Method::Post
    }

    open spec fn spec_path(&self) -> Seq<char> {
        "auth/signup"@
    }

    open spec fn spec_body(&self) -> Result<Option<Seq<char>>, BodyError> {
        Ok(Some(object_text(seq![("name"@, Some(self.name@)), ("email"@, Some(self.email@)), ("password"@, Some(self.password@))])))
    }

    fn method(&self) -> (r: Method) {
        Method::Post
    }

    fn endpoint(&self) -> (r: String) {
        String::from_str("auth/signup")
    }

    fn body(&self) -> (r: Result<Option<(&'static str, Vec<u8>)>, BodyError>) {
        let fields = vec![("name", Some(self.name.as_str())), ("email", Some(self.email.as_str())), ("password", Some(self.password.as_str()))];
        assert(fields.deep_view() =~= seq![("name"@, Some(self.name@)), ("email"@, Some(self.email@)), ("password"@, Some(self.password@))]);
        json_body(&fields)
    }
}

impl DefaultModel for Signup {
    type Model = NewUser;

    open spec fn spec_envelope() -> Envelope {
        Envelope::Data
    }

    fn envelope() -> (r: Envelope) {
        Envelope::Data
    }
}

/// A user just created.
#[derive(Clone, Debug, PartialEq, Eq, Hash, PartialOrd, Ord)]
pub struct NewUser {
    pub id: UserId,
    pub name: String,
    pub email: String,
    pub access_token: crate::api::AccessToken,
}

/// The mathematical value of a [`NewUser`].
pub struct NewUserView {
    pub id: Seq<char>,
    pub name: Seq<char>,
    pub email: Seq<char>,
    pub access_token: Seq<char>,
}

impl DeepView for NewUser {
    type V = NewUserView;

    open spec fn deep_view(&self) -> NewUserView {
        NewUserView {
            id: self.id.deep_view(),
            name: self.name.deep_view(),
            email: self.email.deep_view(),
            access_token: self.access_token.deep_view(),
        }
    }
}

impl FromJson for NewUser {
    open spec fn spec_decode(v: JsonV) -> Option<NewUserView> {
        match (
            field_spec::<UserId>(v, "id"@),
            field_spec::<String>(v, "name"@),
            field_spec::<String>(v, "email"@),
            field_spec::<crate::api::AccessToken>(v, "accessToken"@),
        ) {
            (Some(id), Some(name), Some(email), Some(access_token)) => Some(
                NewUserView { id, name, email, access_token },
            ),
            _ => None,
        }
    }

    open spec fn spec_model_name() -> Seq<char> {
        "NewUser"@
    }

    fn model_name() -> (r: &'static str) {
        "NewUser"
    }

    fn from_json(v: &Json) -> (r: Result<NewUser, DecodeError>) {
        let id = field::<UserId>(v, "id")?;
        let name = field::<String>(v, "name")?;
        let email = field::<String>(v, "email")?;
        let access_token = field::<crate::api::AccessToken>(v, "accessToken")?;
        Ok(NewUser { id, name, email, access_token })
    }
}

/// Signs in: by email address and password, or by client credentials.
#[derive(PartialEq, Eq, Clone, Hash, PartialOrd, Ord)]
pub enum Token {
    Password { mail: String, password: String },
    ClientCredentials { client_id: String, client_secret: String },
}

impl Token {
    /// Signs in with an email address and a password.
    pub fn password(mail: &str, password: &str) -> (r: Self)
        ensures
            r matches Token::Password { mail: m, password: p } && m@ == mail@ && p@ == password@,
    {
        Token::Password { mail: String::from_str(mail), password: String::from_str(password) }
    }

    /// Signs in with a client id and its secret.
    pub fn client_credentials(id: &str, secret: &str) -> (r: Self)
        ensures
            r matches Token::ClientCredentials { client_id: i, client_secret: s } && i@ == id@
                && s@ == secret@,
    {
        Token::ClientCredentials {
            client_id: String::from_str(id),
            client_secret: String::from_str(secret),
        }
    }
}

impl Endpoint for Token {
    type AccessControl = Unauthenticated;

    open spec fn spec_method(&self) -> Method {
        Method::Post
    }

    open spec fn spec_path(&self) -> Seq<char> {
        "auth/token"@
    }

    open spec fn spec_body(&self) -> Result<Option<Seq<char>>, BodyError> {
        Ok(match self {
            Token::Password { mail, password } => Some(
                object_text(
                    seq![
                        ("grant_type"@, Some("password"@)),
                        ("username"@, Some(mail@)),
                        ("password"@, Some(password@)),
                    ],
                ),
            ),
            Token::ClientCredentials { client_id, client_secret } => Some(
                object_text(
                    seq![
                        ("grant_type"@, Some("client_credentials"@)),
                        ("client_id"@, Some(client_id@)),
                        ("client_secret"@, Some(client_secret@)),
                    ],
                ),
            ),
        })
    }

    fn method(&self) -> (r: Method) {
        Method::Post
    }

    fn endpoint(&self) -> (r: String) {
        String::from_str("auth/token")
    }

    fn body(&self) -> (r: Result<Option<(&'static str, Vec<u8>)>, BodyError>) {
        match self {
            Token::Password { mail, password } => {
                let fields = vec![
                    ("grant_type", Some("password")),
                    ("username", Some(mail.as_str())),
                    ("password", Some(password.as_str())),
                ];
                assert(fields.deep_view() =~= seq![
                    ("grant_type"@, Some("password"@)),
                    ("username"@, Some(mail@)),
                    ("password"@, Some(password@)),
                ]);
                json_body(&fields)
            },
            Token::ClientCredentials { client_id, client_secret } => {
                let fields = vec![
                    ("grant_type", Some("client_credentials")),
                    ("client_id", Some(client_id.as_str())),
                    ("client_secret", Some(client_secret.as_str())),
                ];
                assert(fields.deep_view() =~= seq![
                    ("grant_type"@, Some("client_credentials"@)),
                    ("client_id"@, Some(client_id@)),
                    ("client_secret"@, Some(client_secret@)),
                ]);
                json_body(&fields)
            },
        }
    }
}

/// The text that `{:?}` writes for a string: quoted and escaped.
pub uninterp spec fn debug_literal(s: Seq<char>) -> Seq<char>;

/// Relies on `str`'s `Debug`: the string quoted, with escapes.
#[verifier::external_body]
fn debug_quote(s: &str) -> (r: String)
    ensures
        r@ == debug_literal(s@),
{
    format!("{:?}", s)
}

/// The description of a sign-in that [`Token::redacted`] gives: it names
/// the account and hides the secret.
pub open spec fn redacted_text(t: Token) -> Seq<char> {
    match t {
        Token::Password { mail, .. } => "Password { mail: "@ + debug_literal(mail@)
            + ", password: \"***\" }"@,
        Token::ClientCredentials { client_id, .. } => "ClientCredentials { client_id: "@
            + debug_literal(client_id@) + ", client_secret: \"***\" }"@,
    }
}

impl Token {
    /// A description for logs, with the password or secret hidden.
    pub fn redacted(&self) -> (r: String)
        ensures
            r@ == redacted_text(*self),
    {
        match self {
            Token::Password { mail, .. } => {
                let mut text = String::from_str("Password { mail: ");
                text.append(debug_quote(mail.as_str()).as_str());
                text.append(", password: \"***\" }");
                text
            },
            Token::ClientCredentials { client_id, .. } => {
                let mut text = String::from_str("ClientCredentials { client_id: ");
                text.append(debug_quote(client_id.as_str()).as_str());
                text.append(", client_secret: \"***\" }");
                text
            },
        }
    }
}

/// The token endpoint answers with the bare token, without an envelope.
impl DefaultModel for Token {
    type Model = AccessToken;

    open spec fn spec_envelope() -> Envelope {
        Envelope::Bare
    }

    fn envelope() -> (r: Envelope) {
        Envelope::Bare
    }
}

/// The token that signing in grants.
#[derive(Clone, Debug, PartialEq, Eq, Hash, PartialOrd, Ord)]
pub struct AccessToken {
    pub access_token: String,
    pub expires_in: String,
    pub token_type: String,
}

/// The mathematical value of a [`AccessToken`].
pub struct AccessTokenView {
    pub access_token: Seq<char>,
    pub expires_in: Seq<char>,
    pub token_type: Seq<char>,
}

impl DeepView for AccessToken {
    type V = AccessTokenView;

    open spec fn deep_view(&self) -> AccessTokenView {
        AccessTokenView {
            access_token: self.access_token.deep_view(),
            expires_in: self.expires_in.deep_view(),
            token_type: self.token_type.deep_view(),
        }
    }
}

impl FromJson for AccessToken {
    open spec fn spec_decode(v: JsonV) -> Option<AccessTokenView> {
        match (
            field_spec::<String>(v, "access_token"@),
            field_spec::<String>(v, "expires_in"@),
            field_spec::<String>(v, "token_type"@),
        ) {
            (Some(access_token), Some(expires_in), Some(token_type)) => Some(
                AccessTokenView { access_token, expires_in, token_type },
            ),
            _ => None,
        }
    }

    open spec fn spec_model_name() -> Seq<char> {
        "AccessToken"@
    }

    fn model_name() -> (r: &'static str) {
        "AccessToken"
    }

    fn from_json(v: &Json) -> (r: Result<AccessToken, DecodeError>) {
        let access_token = field::<String>(v, "access_token")?;
        let expires_in = field::<String>(v, "expires_in")?;
        let token_type = field::<String>(v, "token_type")?;
        Ok(AccessToken { access_token, expires_in, token_type })
    }
}

} // verus!
