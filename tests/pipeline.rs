use traduora::api::auth::{AccessToken, Token};
use traduora::api::locales::Locale;
use traduora::api::projects::{CreateProject, Project};
use traduora::api::users::{DeleteMe, UserInfo};
use traduora::endpoint::Request;
use traduora::json::Json;
use traduora::model::{field, FromJson};
use traduora::response::{process_response, Envelope, Response};
use traduora::{ApiError, Client, CustomQuery, DummyClient, Query, RestClient};
use traduora::auth::Authenticated;

fn rsp(status: u16, body: &str) -> Response {
    Response { status, body: body.as_bytes().to_vec() }
}

struct Canned {
    status: u16,
    body: String,
}

impl RestClient for Canned {
    type Error = String;
    type AccessLevel = Authenticated;

    fn rest_url(&self) -> &str {
        "https://example.test/api/v1/"
    }
}

impl Client for Canned {
    fn rest(&self, _request: Request) -> Result<Response, String> {
        Ok(rsp(self.status, &self.body))
    }
}

struct Broken;

impl RestClient for Broken {
    type Error = String;
    type AccessLevel = Authenticated;

    fn rest_url(&self) -> &str {
        "https://example.test/api/v1/"
    }
}

impl Client for Broken {
    fn rest(&self, _request: Request) -> Result<Response, String> {
        Err("connection refused".to_string())
    }
}

const PROJECT: &str = r#"{"id":"prj-7","name":"Demo","description":"A demo","localesCount":2,"termsCount":40,"role":"admin","date":{"created":"2021-01-01T00:00:00Z","modified":"2021-01-01T00:00:01.5Z"}}"#;

#[test]
fn success_with_envelope_decodes_value() {
    let r: Result<Json, ApiError<()>> =
        process_response(&rsp(200, r#"{"data": {"value": 0}}"#), Envelope::Data);
    let v = r.unwrap();
    let value: u64 = field(&v, "value").unwrap();
    assert_eq!(value, 0);
}

#[test]
fn not_found_with_same_shape_is_an_error() {
    let r: Result<Json, ApiError<()>> =
        process_response(&rsp(404, r#"{"data": {"value": 0}}"#), Envelope::Data);
    assert!(matches!(r, Err(ApiError::TraduoraUnrecognized { .. })));
}

#[test]
fn failure_message_wins_over_error() {
    let r: Result<Json, ApiError<()>> =
        process_response(&rsp(400, r#"{"message": "m1", "error": "m2"}"#), Envelope::Data);
    assert!(matches!(r, Err(ApiError::Traduora { msg }) if msg == "m1"));
}

#[test]
fn failure_legacy_error_key() {
    let r: Result<Json, ApiError<()>> =
        process_response(&rsp(401, r#"{"error": "legacy"}"#), Envelope::Data);
    assert!(matches!(r, Err(ApiError::Traduora { msg }) if msg == "legacy"));
}

#[test]
fn failure_unrecognized_object_is_carried() {
    let r: Result<Json, ApiError<()>> =
        process_response(&rsp(409, r#"{"unexpected_key": "value"}"#), Envelope::Data);
    let expected = Json::Object(vec![("unexpected_key".to_string(), Json::Str("value".to_string()))]);
    assert!(matches!(r, Err(ApiError::TraduoraUnrecognized { obj }) if obj == expected));
}

#[test]
fn empty_success_body_is_null() {
    let r: Result<Json, ApiError<()>> = process_response(&rsp(200, ""), Envelope::Bare);
    assert_eq!(r.unwrap(), Json::Null);
    let unit: Result<(), ApiError<()>> = process_response(&rsp(204, ""), Envelope::Bare);
    assert!(unit.is_ok());
}

#[test]
fn empty_success_body_for_object_model_is_data_type_error() {
    let r: Result<Project, ApiError<()>> = process_response(&rsp(200, ""), Envelope::Data);
    assert!(matches!(r, Err(ApiError::DataType { .. })));
    let r: Result<Project, ApiError<()>> = process_response(&rsp(200, ""), Envelope::Bare);
    assert!(matches!(r, Err(ApiError::DataType { typename: "Project", .. })));
}

#[test]
fn unparsable_failure_body_is_service_error() {
    let r: Result<Json, ApiError<()>> = process_response(&rsp(500, "not json"), Envelope::Data);
    assert!(matches!(r, Err(ApiError::TraduoraService { status: 500, data }) if data == b"not json".to_vec()));
}

#[test]
fn empty_failure_body_is_service_error() {
    let r: Result<Json, ApiError<()>> = process_response(&rsp(503, ""), Envelope::Data);
    assert!(matches!(r, Err(ApiError::TraduoraService { status: 503, data }) if data.is_empty()));
}

#[test]
fn unparsable_success_body_is_json_error() {
    let r: Result<Json, ApiError<()>> = process_response(&rsp(200, "not json"), Envelope::Data);
    assert!(matches!(r, Err(ApiError::Json { .. })));
}

#[test]
fn missing_envelope_is_data_type_error() {
    let r: Result<Json, ApiError<()>> = process_response(&rsp(200, r#"{"value": 0}"#), Envelope::Data);
    assert!(matches!(r, Err(ApiError::DataType { .. })));
}

#[test]
fn envelope_round_trip_matches_bare_decoding() {
    let inner = r#"{"code":"en_US","language":"English","region":"United States"}"#;
    let wrapped = format!(r#"{{"data":{}}}"#, inner);
    let a: Result<Locale, ApiError<()>> = process_response(&rsp(200, &wrapped), Envelope::Data);
    let b: Result<Locale, ApiError<()>> = process_response(&rsp(200, inner), Envelope::Bare);
    let a = a.unwrap();
    assert_eq!(a, b.unwrap());
    assert_eq!(a.code.value(), "en_US");
    assert_eq!(a.language, "English");
    assert_eq!(a.region, "United States");
}

#[test]
fn token_endpoint_decodes_bare_document() {
    let client = Canned {
        status: 200,
        body: r#"{"access_token":"abc","expires_in":"86400s","token_type":"bearer"}"#.to_string(),
    };
    let token: AccessToken = Token::password("user@mail.example", "pw").query(&client).unwrap();
    assert_eq!(token.access_token, "abc");
    assert_eq!(token.expires_in, "86400s");
    assert_eq!(token.token_type, "bearer");
}

#[test]
fn decoding_project_model() {
    let body = format!(r#"{{"data":{}}}"#, PROJECT);
    let r: Result<Project, ApiError<()>> = process_response(&rsp(201, &body), Envelope::Data);
    let p = r.unwrap();
    assert_eq!(p.id.value(), "prj-7");
    assert_eq!(p.locales_count, 2);
    assert_eq!(p.terms_count, 40);
    assert_eq!(p.role, traduora::api::Role::Admin);
    assert_eq!(p.date.created.secs, 1609459200);
    assert_eq!(p.date.created.nanos, 0);
    assert_eq!(p.date.modified.secs, 1609459201);
    assert_eq!(p.date.modified.nanos, 500_000_000);
}

#[test]
fn same_descriptor_twice_gives_equal_results() {
    let client = Canned { status: 200, body: format!(r#"{{"data":{}}}"#, PROJECT) };
    let a = CreateProject::new("Demo", "A demo");
    let b = CreateProject::new("Demo", "A demo");
    assert_eq!(a, b);
    let ra = a.query(&client).unwrap();
    let rb = b.query(&client).unwrap();
    assert_eq!(ra, rb);
}

#[test]
fn custom_query_uses_same_envelope() {
    let client = Canned { status: 200, body: format!(r#"{{"data":{}}}"#, PROJECT) };
    let raw: Json = CreateProject::new("Demo", "A demo").query_custom(&client).unwrap();
    let name: String = field(&raw, "name").unwrap();
    assert_eq!(name, "Demo");
}

#[test]
fn transport_failure_is_client_error() {
    let r = DeleteMe.query(&Broken);
    assert!(matches!(r, Err(ApiError::Client { source }) if source == "connection refused"));
}

#[test]
fn dummy_client_answers_delete_with_unit() {
    assert!(DeleteMe.query(&DummyClient).is_ok());
}

#[test]
fn unsigned_numbers() {
    assert_eq!(u64::from_json(&Json::Number("12".to_string())), Ok(12));
    assert_eq!(u64::from_json(&Json::Number("18446744073709551615".to_string())), Ok(u64::MAX));
    assert!(u64::from_json(&Json::Number("18446744073709551616".to_string())).is_err());
    assert!(u64::from_json(&Json::Number("-1".to_string())).is_err());
    assert!(u64::from_json(&Json::Number("1.5".to_string())).is_err());
    assert!(u64::from_json(&Json::Str("1".to_string())).is_err());
}

#[test]
fn optional_and_missing_fields() {
    let a = r#"{"id":"u","name":"Tester","email":"t@x"}"#;
    let u: Result<UserInfo, ApiError<()>> = process_response(&rsp(200, a), Envelope::Bare);
    assert_eq!(u.unwrap().num_projects_created, None);
    let b = r#"{"id":"u","name":"Tester","email":"t@x","numProjectsCreated":3}"#;
    let u: Result<UserInfo, ApiError<()>> = process_response(&rsp(200, b), Envelope::Bare);
    assert_eq!(u.unwrap().num_projects_created, Some(3));
    let c = r#"{"id":"u","email":"t@x"}"#;
    let u: Result<UserInfo, ApiError<()>> = process_response(&rsp(200, c), Envelope::Bare);
    assert!(matches!(u, Err(ApiError::DataType { .. })));
}

#[test]
fn bad_timestamp_is_data_type_error() {
    let body = PROJECT.replace("2021-01-01T00:00:00Z", "yesterday");
    let r: Result<Project, ApiError<()>> = process_response(&rsp(200, &body), Envelope::Bare);
    assert!(matches!(r, Err(ApiError::DataType { .. })));
}
