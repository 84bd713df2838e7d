use traduora::json::Json;
use traduora::ApiError;

#[derive(Debug)]
enum MyError {}

fn object(fields: Vec<(&str, Json)>) -> Json {
    Json::Object(fields.into_iter().map(|(k, v)| (k.to_string(), v)).collect())
}

fn text(s: &str) -> Json {
    Json::Str(s.to_string())
}

#[test]
fn traduora_error_error() {
    let obj = object(vec![("error", text("error contents"))]);

    let err: ApiError<MyError> = ApiError::from_traduora(obj);
    if let ApiError::Traduora { msg } = err {
        assert_eq!(msg, "error contents");
    } else {
        panic!("unexpected error: {:?}", err);
    }
}

#[test]
fn traduora_error_message_string() {
    let obj = object(vec![("message", text("error contents"))]);

    let err: ApiError<MyError> = ApiError::from_traduora(obj);
    if let ApiError::Traduora { msg } = err {
        assert_eq!(msg, "error contents");
    } else {
        panic!("unexpected error: {:?}", err);
    }
}

#[test]
fn traduora_error_message_object() {
    let err_obj = object(vec![("blah", text("foo"))]);
    let obj = object(vec![("message", object(vec![("blah", text("foo"))]))]);

    let err: ApiError<MyError> = ApiError::from_traduora(obj);
    if let ApiError::TraduoraObject { obj } = err {
        assert_eq!(obj, err_obj);
    } else {
        panic!("unexpected error: {:?}", err);
    }
}

#[test]
fn traduora_error_message_unrecognized() {
    let err_obj = object(vec![("some_weird_key", text("an even weirder value"))]);

    let err: ApiError<MyError> = ApiError::from_traduora(err_obj.deep_clone());
    if let ApiError::TraduoraUnrecognized { obj } = err {
        assert_eq!(obj, err_obj);
    } else {
        panic!("unexpected error: {:?}", err);
    }
}

#[test]
fn message_wins_over_error_key() {
    let obj = object(vec![("message", text("m1")), ("error", text("m2"))]);
    let err: ApiError<MyError> = ApiError::from_traduora(obj);
    assert!(matches!(err, ApiError::Traduora { msg } if msg == "m1"));
}

#[test]
fn error_key_object_is_carried() {
    let obj = object(vec![("error", Json::Number("7".to_string()))]);
    let err: ApiError<MyError> = ApiError::from_traduora(obj);
    assert!(matches!(err, ApiError::TraduoraObject { obj } if obj == Json::Number("7".to_string())));
}

#[test]
fn non_object_error_document_is_unrecognized() {
    let err: ApiError<MyError> = ApiError::from_traduora(Json::Array(vec![text("message")]));
    assert!(matches!(err, ApiError::TraduoraUnrecognized { obj } if obj == Json::Array(vec![text("message")])));
}

#[test]
fn server_error_keeps_status_and_bytes() {
    let err: ApiError<MyError> = ApiError::server_error(502, b"bad gateway");
    assert!(matches!(err, ApiError::TraduoraService { status: 502, data } if data == b"bad gateway".to_vec()));
}
