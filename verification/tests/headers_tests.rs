use binance_core::errors::SdkError;
use binance_core::headers::{build_headers, is_valid_header_value};

#[test]
fn a_raw_newline_in_the_api_key_is_rejected() {
    let r = build_headers("api\nkey", true);
    assert_eq!(r.unwrap_err(), SdkError::InvalidHeaderValue);
}

#[test]
fn control_characters_in_the_api_key_are_rejected() {
    assert_eq!(
        build_headers("api\u{0}key", false).unwrap_err(),
        SdkError::InvalidHeaderValue
    );
    assert_eq!(
        build_headers("api\rkey", true).unwrap_err(),
        SdkError::InvalidHeaderValue
    );
    assert_eq!(
        build_headers("api\u{7f}key", true).unwrap_err(),
        SdkError::InvalidHeaderValue
    );
}

#[test]
fn a_tab_may_stand_in_a_header_value() {
    assert!(is_valid_header_value("a\tb"));
    assert!(build_headers("a\tb", false).is_ok());
}

#[test]
fn an_ordinary_key_builds_the_full_header_set() {
    let h = build_headers("an-ordinary-api-key", true).unwrap();
    assert_eq!(h.user_agent, "binance-rs");
    assert_eq!(h.api_key, "an-ordinary-api-key");
    assert_eq!(
        h.content_type.as_deref(),
        Some("application/x-www-form-urlencoded")
    );
}

#[test]
fn the_content_type_is_set_only_when_asked_for() {
    assert!(build_headers("k", false).unwrap().content_type.is_none());
    assert!(build_headers("k", true).unwrap().content_type.is_some());
}

#[test]
fn an_empty_api_key_is_a_valid_header_value() {
    assert!(is_valid_header_value(""));
    let h = build_headers("", false).unwrap();
    assert_eq!(h.api_key, "");
}

#[test]
fn validity_follows_the_header_value_byte_rule() {
    assert!(is_valid_header_value("ordinary key 123 !@#"));
    assert!(!is_valid_header_value("\u{1f}"));
    assert!(is_valid_header_value(" "));
    assert!(!is_valid_header_value("ok until\u{0b}here"));
}
