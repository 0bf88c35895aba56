use binance_core::decoder::decode_response;
use binance_core::errors::SdkError;

#[test]
fn status_200_hands_the_body_back_for_the_typed_decode() {
    let body = decode_response(200, "{\"a\":1}".to_string()).unwrap();
    assert_eq!(body, "{\"a\":1}");
    // The caller's typed decode then sees the field.
    let v: serde_json::Value = serde_json::from_str(&body).unwrap();
    assert_eq!(v.get("a").and_then(serde_json::Value::as_i64), Some(1));
}

#[test]
fn status_400_with_a_structured_body_is_a_platform_error() {
    let r = decode_response(
        400,
        "{\"code\":-1013,\"msg\":\"Invalid quantity\"}".to_string(),
    );
    assert_eq!(
        r.unwrap_err(),
        SdkError::PlatformError(-1013, "Invalid quantity".to_string())
    );
}

#[test]
fn status_400_tolerates_extra_fields_in_the_structured_body() {
    let r = decode_response(
        400,
        "{\"msg\":\"Timestamp for this request is outside of the recvWindow.\",\"code\":-1021,\"extra\":[1,2]}"
            .to_string(),
    );
    assert_eq!(
        r.unwrap_err(),
        SdkError::PlatformError(
            -1021,
            "Timestamp for this request is outside of the recvWindow.".to_string()
        )
    );
}

#[test]
fn status_400_with_an_unreadable_body_is_a_deserialization_error() {
    match decode_response(400, "not json at all".to_string()).unwrap_err() {
        SdkError::DeserializationError(raw, _cause) => assert_eq!(raw, "not json at all"),
        other => panic!("unexpected error kind: {:?}", other),
    }
    match decode_response(400, "{\"code\":-1013}".to_string()).unwrap_err() {
        SdkError::DeserializationError(raw, _cause) => assert_eq!(raw, "{\"code\":-1013}"),
        other => panic!("unexpected error kind: {:?}", other),
    }
    match decode_response(400, "{\"code\":\"x\",\"msg\":\"y\"}".to_string()).unwrap_err() {
        SdkError::DeserializationError(_, _) => {}
        other => panic!("unexpected error kind: {:?}", other),
    }
}

#[test]
fn status_401_is_unauthorized_whatever_the_body_holds() {
    assert_eq!(
        decode_response(401, "{\"code\":-2014,\"msg\":\"API-key format invalid.\"}".to_string())
            .unwrap_err(),
        SdkError::Unauthorized
    );
    assert_eq!(
        decode_response(401, String::new()).unwrap_err(),
        SdkError::Unauthorized
    );
}

#[test]
fn status_500_is_a_server_error_with_its_fixed_message() {
    assert_eq!(
        decode_response(500, "boom".to_string()).unwrap_err(),
        SdkError::ServerError("Internal Server Error".to_string())
    );
}

#[test]
fn status_503_is_server_unavailable() {
    assert_eq!(
        decode_response(503, "down for maintenance".to_string()).unwrap_err(),
        SdkError::ServerUnavailable
    );
}

#[test]
fn an_unmapped_status_keeps_its_code_and_body_verbatim() {
    assert_eq!(
        decode_response(418, "i am a teapot".to_string()).unwrap_err(),
        SdkError::UnexpectedStatus(418, "i am a teapot".to_string())
    );
    assert_eq!(
        decode_response(302, String::new()).unwrap_err(),
        SdkError::UnexpectedStatus(302, String::new())
    );
    assert_eq!(
        decode_response(204, "{}".to_string()).unwrap_err(),
        SdkError::UnexpectedStatus(204, "{}".to_string())
    );
}
