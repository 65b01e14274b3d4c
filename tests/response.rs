use chatgpt_basic_api::openai::RequestError;
use chatgpt_basic_api::structure::response::{decode_model, decode_models, Response};

#[test]
fn listing_decodes_to_success() {
    let body = br#"{"data": [{"id":"m1","object":"model","owned_by":"org","permission":[]}], "object":"list"}"#;
    match decode_models(body).unwrap() {
        Response::Success(m) => {
            assert_eq!(m.data.len(), 1);
            assert_eq!(m.data[0].id, "m1");
            assert_eq!(m.data[0].object, "model");
            assert_eq!(m.data[0].owned_by, "org");
            assert!(m.data[0].permission.is_array());
            assert_eq!(m.object, "list");
            assert!(m.extra.as_object().unwrap().is_empty());
        },
        Response::Error(_) => panic!("expected the success variant"),
    }
}

#[test]
fn listing_keeps_unknown_fields() {
    let body = br#"{"data": [{"id":"m1","object":"model","owned_by":"org","permission":[],"created":5}], "object":"list","more":true}"#;
    match decode_models(body).unwrap() {
        Response::Success(m) => {
            assert_eq!(m.extra.get("more").unwrap().as_bool(), Some(true));
            assert!(m.extra.get("data").is_none());
            assert_eq!(m.data[0].extra.get("created").unwrap().as_u64(), Some(5));
            assert!(m.data[0].extra.get("id").is_none());
        },
        Response::Error(_) => panic!("expected the success variant"),
    }
}

#[test]
fn error_body_decodes_to_error() {
    let body = br#"{"error": {"message": "Invalid URL", "type": "invalid_request_error", "code": null, "param": null}}"#;
    match decode_models(body).unwrap() {
        Response::Error(e) => {
            assert_eq!(e.error.message.as_deref(), Some("Invalid URL"));
            assert_eq!(e.error.type_.as_deref(), Some("invalid_request_error"));
            assert!(e.error.code.is_none());
            assert!(e.error.param.is_none());
        },
        Response::Success(_) => panic!("expected the error variant"),
    }
}

#[test]
fn error_code_may_be_a_number() {
    let body = br#"{"error": {"code": 404}}"#;
    match decode_model(body).unwrap() {
        Response::Error(e) => {
            assert_eq!(e.error.code.unwrap().as_u64(), Some(404));
            assert!(e.error.message.is_none());
        },
        Response::Success(_) => panic!("expected the error variant"),
    }
}

#[test]
fn truncated_body_is_a_json_error() {
    let body = br#"{"data": [{"id":"m1""#;
    assert!(matches!(decode_models(body), Err(RequestError::Json(_))));
}

#[test]
fn other_json_is_a_shape_error() {
    assert!(matches!(decode_models(br#"{"object":"list"}"#), Err(RequestError::Shape)));
    assert!(matches!(decode_model(br#"{"error": {"message": 3}}"#), Err(RequestError::Shape)));
    assert!(matches!(decode_model(b"[1, 2]"), Err(RequestError::Shape)));
}

#[test]
fn single_model_decodes() {
    let body = br#"{"id":"text-babbage:001","object":"model","owned_by":"openai","permission":[{"allow":true}]}"#;
    match decode_model(body).unwrap() {
        Response::Success(e) => {
            assert_eq!(e.id, "text-babbage:001");
            assert_eq!(e.owned_by, "openai");
            assert_eq!(e.permission.as_array().unwrap().len(), 1);
        },
        Response::Error(_) => panic!("expected the success variant"),
    }
}

#[test]
fn entry_missing_a_field_fails_the_listing() {
    let body = br#"{"data": [{"id":"m1","object":"model","permission":[]}], "object":"list"}"#;
    assert!(matches!(decode_models(body), Err(RequestError::Shape)));
}
