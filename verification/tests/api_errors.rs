use skailar::error::{build_api_error, parse_error_fields, ApiError, SkailarError};
use skailar::json::JsonValue;

fn doc(text: &str) -> JsonValue {
    JsonValue::parse(text).unwrap()
}

#[test]
fn parses_nested_type_field() {
    let body = doc(r#"{ "error": { "type": "invalid_api_key", "message": "bad key" } }"#);
    let (code, message) = parse_error_fields(&body);
    assert_eq!(code.as_deref(), Some("invalid_api_key"));
    assert_eq!(message.as_deref(), Some("bad key"));
}

#[test]
fn parses_openai_code_field() {
    let body = doc(r#"{ "error": { "code": "rate_limited", "message": "slow down" } }"#);
    let (code, message) = parse_error_fields(&body);
    assert_eq!(code.as_deref(), Some("rate_limited"));
    assert_eq!(message.as_deref(), Some("slow down"));
}

#[test]
fn parses_flat_error_string() {
    let body = doc(r#"{ "error": "bad_request", "message": "nope" }"#);
    let (code, message) = parse_error_fields(&body);
    assert_eq!(code.as_deref(), Some("bad_request"));
    assert_eq!(message.as_deref(), Some("nope"));
}

#[test]
fn build_falls_back_to_status_when_empty() {
    let err = build_api_error(500, None, None, "");
    assert_eq!(err.message, "HTTP 500");
    assert!(err.is_upstream());
}

#[test]
fn predicates_match_status() {
    let mk = |status| build_api_error(status, None, None, "{}");
    assert!(mk(401).is_auth());
    assert!(mk(400).is_bad_request());
    assert!(mk(404).is_not_found());
    assert!(mk(429).is_rate_limit());
    assert!(mk(503).is_upstream());
}

#[test]
fn type_wins_over_code_and_non_string_code_is_dropped() {
    let body = doc(r#"{ "error": { "type": "t", "code": "c", "message": "m" } }"#);
    assert_eq!(parse_error_fields(&body), (Some("t".to_string()), Some("m".to_string())));
    let body = doc(r#"{ "error": { "type": 7, "code": "c" } }"#);
    assert_eq!(parse_error_fields(&body), (None, None));
    let body = doc(r#"{ "message": "top level only" }"#);
    assert_eq!(parse_error_fields(&body), (None, Some("top level only".to_string())));
    let body = doc(r#"[1, 2]"#);
    assert_eq!(parse_error_fields(&body), (None, None));
}

#[test]
fn non_json_body_becomes_trimmed_message() {
    let err = build_api_error(502, Some("req_1".to_string()), Some(3), "  upstream timeout \n");
    assert_eq!(err.status, 502);
    assert_eq!(err.message, "upstream timeout");
    assert_eq!(err.code, None);
    assert!(err.raw.is_none());
    assert_eq!(err.request_id.as_deref(), Some("req_1"));
    assert_eq!(err.retry_after, Some(3));
}

#[test]
fn json_body_without_message_keeps_body_text() {
    let err = build_api_error(400, None, None, r#"{"error":"bad_request"}"#);
    assert_eq!(err.code.as_deref(), Some("bad_request"));
    assert_eq!(err.message, r#"{"error":"bad_request"}"#);
    assert!(err.raw.is_some());
    assert!(err.is_bad_request());
    assert!(!err.is_upstream());
}

#[test]
fn error_display_includes_status_and_message() {
    let err = build_api_error(
        401,
        None,
        None,
        r#"{"error":{"type":"invalid_api_key","message":"bad key"}}"#,
    );
    let text = err.to_display_string();
    assert!(text.contains("401"));
    assert!(text.contains("bad key"));
    assert_eq!(text, "API error (401): bad key");
}

#[test]
fn as_api_only_for_api_errors() {
    let wrapped = SkailarError::api(build_api_error(429, None, Some(1), "{}"));
    let api: &ApiError = wrapped.as_api().unwrap();
    assert!(api.is_rate_limit());
    assert_eq!(api.message, "{}");
    assert!(SkailarError::MissingApiKey.as_api().is_none());
    assert!(SkailarError::Aborted.as_api().is_none());
}

#[test]
fn parse_json_keeps_members_as_text() {
    match doc(r#"{"a": {"b": [1, 2]}, "n": 1.5}"#) {
        JsonValue::Object(members) => {
            assert_eq!(members.len(), 2);
            assert_eq!(members[0].0, "a");
            assert_eq!(members[0].1, r#"{"b":[1,2]}"#);
            assert_eq!(members[1].1, "1.5");
        }
        other => panic!("expected object, got {other:?}"),
    }
    assert!(JsonValue::parse("{").is_none());
    assert!(matches!(JsonValue::parse("null"), Some(JsonValue::Null)));
}

#[test]
fn transport_errors_map_to_network_or_timeout() {
    let err = reqwest::Client::new().get("not a url").build().unwrap_err();
    assert!(!err.is_timeout());
    assert!(matches!(SkailarError::from_reqwest(err, 60), SkailarError::Network(_)));
    let err = reqwest::Client::new().get("also not a url").build().unwrap_err();
    assert!(matches!(
        SkailarError::from_transport(err, true, 30),
        SkailarError::Timeout { timeout_secs: 30 }
    ));
}

#[test]
fn upstream_is_the_5xx_range() {
    assert!(build_api_error(500, None, None, "{}").is_upstream());
    assert!(build_api_error(599, None, None, "{}").is_upstream());
    assert!(!build_api_error(600, None, None, "{}").is_upstream());
    assert!(!build_api_error(499, None, None, "{}").is_upstream());
}
