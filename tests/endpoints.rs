use traduora::api::auth::{AuthProvider, ChangePassword, Providers, Signup, Token};
use traduora::api::locales::LocaleCode;
use traduora::api::projects::{CreateProject, DeleteProject, EditProject, Projects, ShowProject};
use traduora::api::terms::{CreateTerm, DeleteTerm, EditTerm, Terms};
use traduora::api::translations::{CreateLocale, DeleteLocale, EditTranslation, Locales, Translations};
use traduora::api::users::{DeleteMe, EditMe, Me};
use traduora::api::{AccessToken, ProjectId, TermId};
use traduora::auth::{AuthError, Authenticated, Scope, Unauthenticated};
use traduora::endpoint::{build_request_with_body, Endpoint, Method};
use traduora::response::{process_response, Envelope, Response};
use traduora::{ApiError, Login, TraduoraBuilder};

fn body_of<E: Endpoint>(e: &E) -> Option<String> {
    match e.body() {
        Ok(Some((mime, bytes))) => {
            assert_eq!(mime, "application/json");
            Some(String::from_utf8(bytes).unwrap())
        }
        Ok(None) => None,
        Err(_) => panic!("body failed"),
    }
}

#[test]
fn project_endpoints() {
    let id = ProjectId::new("4b915f76");
    assert_eq!(Projects.endpoint(), "projects");
    assert_eq!(Projects.method(), Method::Get);
    assert_eq!(ShowProject(id.clone()).endpoint(), "projects/4b915f76");
    assert_eq!(DeleteProject(id.clone()).method(), Method::Delete);
    let create = CreateProject::new("Demo", "A demo");
    assert_eq!(create.method(), Method::Post);
    assert_eq!(body_of(&create).unwrap(), r#"{"name":"Demo","description":"A demo"}"#);
    let edit = EditProject::new(id, "n", "d");
    assert_eq!(edit.method(), Method::Patch);
    assert_eq!(edit.endpoint(), "projects/4b915f76");
    assert_eq!(body_of(&edit).unwrap(), r#"{"name":"n","description":"d"}"#);
    assert_eq!(body_of(&Projects), None);
}

#[test]
fn body_strings_are_escaped() {
    let create = CreateProject::new("say \"hi\"", "a\\b\n");
    assert_eq!(body_of(&create).unwrap(), r#"{"name":"say \"hi\"","description":"a\\b\n"}"#);
}

#[test]
fn term_endpoints() {
    let p = ProjectId::new("b1001dd9");
    let t = TermId::new("0fa39756");
    let create = CreateTerm::new("hello.world", p.clone());
    assert_eq!(create.endpoint(), "projects/b1001dd9/terms");
    assert_eq!(body_of(&create).unwrap(), r#"{"value":"hello.world"}"#);
    assert_eq!(Terms(p.clone()).endpoint(), "projects/b1001dd9/terms");
    assert_eq!(DeleteTerm::new(p.clone(), t.clone()).endpoint(), "projects/b1001dd9/terms/0fa39756");
    let edit = EditTerm::new(p, t, "new.term.text.1");
    assert_eq!(edit.endpoint(), "projects/b1001dd9/terms/0fa39756");
    assert_eq!(body_of(&edit).unwrap(), r#"{"value":"new.term.text.1"}"#);
}

#[test]
fn translation_endpoints() {
    let p = ProjectId::new("cb6d5506");
    let de = LocaleCode::new("de_DE");
    assert_eq!(Translations::new(p.clone(), de.clone()).endpoint(), "projects/cb6d5506/translations/de_DE");
    assert_eq!(Locales(p.clone()).endpoint(), "projects/cb6d5506/translations");
    assert_eq!(DeleteLocale::new(p.clone(), de.clone()).endpoint(), "projects/cb6d5506/translations/de_DE");
    let create = CreateLocale::new(p.clone(), LocaleCode::new("en_US"));
    assert_eq!(create.endpoint(), "projects/cb6d5506/translations");
    assert_eq!(body_of(&create).unwrap(), r#"{"code":"en_US"}"#);
    let edit = EditTranslation::new(p, de, TermId::new("7eafe83d"), "new translation");
    assert_eq!(body_of(&edit).unwrap(), r#"{"termId":"7eafe83d","value":"new translation"}"#);
}

#[test]
fn user_endpoints() {
    assert_eq!(Me.endpoint(), "users/me");
    assert_eq!(DeleteMe.method(), Method::Delete);
    let both = EditMe::name_and_mail("new name", "new@mail.example");
    assert_eq!(body_of(&both).unwrap(), r#"{"name":"new name","email":"new@mail.example"}"#);
    assert_eq!(body_of(&EditMe::name("n")).unwrap(), r#"{"name":"n","email":null}"#);
    assert_eq!(body_of(&EditMe::email("e")).unwrap(), r#"{"name":null,"email":"e"}"#);
}

#[test]
fn auth_endpoints() {
    assert_eq!(Providers.endpoint(), "auth/providers");
    let signup = Signup::new("Tester", "t@x", "pw");
    assert_eq!(signup.endpoint(), "auth/signup");
    assert_eq!(body_of(&signup).unwrap(), r#"{"name":"Tester","email":"t@x","password":"pw"}"#);
    let change = ChangePassword::new("old", "new");
    assert_eq!(change.endpoint(), "auth/change-password");
    assert_eq!(body_of(&change).unwrap(), r#"{"oldPassword":"old","newPassword":"new"}"#);
    let login: Login = Token::password("user@mail.example", "letmeinpls");
    assert_eq!(login.endpoint(), "auth/token");
    assert_eq!(
        body_of(&login).unwrap(),
        r#"{"grant_type":"password","username":"user@mail.example","password":"letmeinpls"}"#
    );
    let cc = Token::client_credentials("id", "secret");
    assert_eq!(
        body_of(&cc).unwrap(),
        r#"{"grant_type":"client_credentials","client_id":"id","client_secret":"secret"}"#
    );
}

#[test]
fn token_description_hides_secret() {
    let login = Token::password("user@mail.example", "letmeinpls");
    assert_eq!(login.redacted(), r#"Password { mail: "user@mail.example", password: "***" }"#);
    let cc = Token::client_credentials("my \"id\"", "secret");
    assert_eq!(cc.redacted(), r#"ClientCredentials { client_id: "my \"id\"", client_secret: "***" }"#);
}

#[test]
fn request_url_is_joined_to_root() {
    let e = Terms(ProjectId::new("prj-7"));
    let r = build_request_with_body::<_, ()>(&e, "https://host.example/api/v1/").unwrap();
    assert_eq!(r.url, "https://host.example/api/v1/projects/prj-7/terms");
    assert_eq!(r.method, Method::Get);
    assert_eq!(r.content_type, None);
    assert!(r.body.is_empty());
    let c = CreateProject::new("a", "b");
    let r = build_request_with_body::<_, ()>(&c, "http://localhost:8080/api/v1/").unwrap();
    assert_eq!(r.url, "http://localhost:8080/api/v1/projects");
    assert_eq!(r.content_type, Some("application/json"));
    assert_eq!(r.body, br#"{"name":"a","description":"b"}"#.to_vec());
}

#[test]
fn malformed_root_is_url_error() {
    let r = build_request_with_body::<_, ()>(&Me, "not a url");
    assert!(matches!(r, Err(ApiError::UrlParse { .. })));
}

#[test]
fn builder_settings_and_root() {
    let b = TraduoraBuilder::new("localhost:8080");
    assert_eq!(b.protocol(), "https");
    assert!(b.validates_certs());
    assert_eq!(b.rest_url().unwrap(), "https://localhost:8080/api/v1/");
    let b = b.use_http(true).validate_certs(false);
    assert_eq!(b.protocol(), "http");
    assert!(!b.validates_certs());
    assert_eq!(b.rest_url().unwrap(), "http://localhost:8080/api/v1/");
    let a = b.clone().authenticate(Token::password("m", "p"));
    assert_eq!(a.host(), "localhost:8080");
    assert!(a.login() == &Token::password("m", "p"));
    let t = b.with_access_token(AccessToken::new("tok"));
    assert_eq!(t.login().value(), "tok");
    assert!(TraduoraBuilder::new("bad host name").rest_url().is_err());
}

#[test]
fn bearer_header() {
    let scope = Authenticated::from("tok".to_string());
    let header = scope.authorization().unwrap().unwrap();
    assert_eq!(header.value, "Bearer tok");
    assert!(header.sensitive);
    let bad = Authenticated::from("to\nk".to_string());
    assert!(matches!(bad.authorization(), Err(AuthError::HeaderValue { .. })));
    assert!(Unauthenticated.authorization().unwrap().is_none());
    let down: Unauthenticated = Unauthenticated::from(scope);
    assert_eq!(down, Unauthenticated);
}

#[test]
fn providers_decode_urls() {
    let body = r#"[{"slug":"google","clientId":"c1","url":"https://accounts.example/auth","redirectUrl":"HTTPS://app.example/cb"}]"#;
    let r: Result<Vec<AuthProvider>, ApiError<()>> = process_response(
        &Response { status: 200, body: body.as_bytes().to_vec() },
        Envelope::Bare,
    );
    let ps = r.unwrap();
    assert_eq!(ps.len(), 1);
    assert_eq!(ps[0].slug, "google");
    assert_eq!(ps[0].url.0, "https://accounts.example/auth");
    assert_eq!(ps[0].redirect_url.0, "https://app.example/cb");
    let bad = r#"[{"slug":"g","clientId":"c","url":"not a url","redirectUrl":"https://a.example/"}]"#;
    let r: Result<Vec<AuthProvider>, ApiError<()>> = process_response(
        &Response { status: 200, body: bad.as_bytes().to_vec() },
        Envelope::Bare,
    );
    assert!(matches!(r, Err(ApiError::DataType { .. })));
}
