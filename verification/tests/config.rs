use skailar::client::{
    endpoint, extract_request_id, parse_retry_after, parse_u64, resolve_api_key,
    resolve_base_url, ClientOptions, DEFAULT_BASE_URL, DEFAULT_MAX_RETRIES,
};
use skailar::error::SkailarError;

fn test_config() -> skailar::client::ClientConfig {
    ClientOptions::new()
        .api_key("skl_live_test".to_string())
        .base_url("http://localhost:9999".to_string())
        .resolve(None, None)
        .unwrap()
}

#[test]
fn missing_key_errors() {
    let err = ClientOptions::new().resolve(None, None).err().unwrap();
    assert!(matches!(err, SkailarError::MissingApiKey));
}

#[test]
fn explicit_key_builds() {
    let config = ClientOptions::new()
        .api_key("skl_live_explicit".to_string())
        .resolve(None, None)
        .unwrap();
    assert_eq!(config.base_url.as_str(), "https://api.skailar.com/");
}

#[test]
fn endpoint_joins_without_double_slash() {
    let config = test_config();
    let url = endpoint(&config.base_url, "v1/models").unwrap();
    assert_eq!(url.as_str(), "http://localhost:9999/v1/models");
}

#[test]
fn endpoint_tolerates_leading_slash() {
    let config = test_config();
    let url = endpoint(&config.base_url, "/v1/models").unwrap();
    assert_eq!(url.as_str(), "http://localhost:9999/v1/models");
}

#[test]
fn parses_retry_after_header() {
    assert_eq!(parse_retry_after(Some("30")), Some(30));
}

#[test]
fn extracts_request_id_priority() {
    assert_eq!(extract_request_id(Some("a"), None, Some("c")).as_deref(), Some("a"));
}

#[test]
fn key_from_environment_and_empty_key() {
    assert_eq!(resolve_api_key(None, Some("env_key".to_string())).unwrap(), "env_key");
    assert_eq!(
        resolve_api_key(Some("explicit".to_string()), Some("env_key".to_string())).unwrap(),
        "explicit"
    );
    assert!(matches!(
        resolve_api_key(Some(String::new()), Some("env_key".to_string())),
        Err(SkailarError::MissingApiKey)
    ));
    assert!(matches!(
        resolve_api_key(None, Some(String::new())),
        Err(SkailarError::MissingApiKey)
    ));
}

#[test]
fn base_url_precedence_and_errors() {
    assert_eq!(resolve_base_url(None, None).unwrap(), "https://api.skailar.com/");
    assert_eq!(
        resolve_base_url(None, Some("http://env.example".to_string())).unwrap(),
        "http://env.example/"
    );
    assert_eq!(
        resolve_base_url(Some("http://a.example/x".to_string()), Some("http://b.example".to_string()))
            .unwrap(),
        "http://a.example/x"
    );
    assert_eq!(resolve_base_url(Some(String::new()), None).unwrap(), "https://api.skailar.com/");
    assert!(matches!(
        resolve_base_url(Some("not a url".to_string()), None),
        Err(SkailarError::InvalidBaseUrl(_))
    ));
    assert_eq!(DEFAULT_BASE_URL, "https://api.skailar.com");
}

#[test]
fn resolve_reports_bad_base_url_after_key() {
    let err = ClientOptions::new()
        .api_key("k".to_string())
        .base_url("::nope".to_string())
        .resolve(None, None)
        .err()
        .unwrap();
    assert!(matches!(err, SkailarError::InvalidBaseUrl(_)));
    let err = ClientOptions::new()
        .base_url("::nope".to_string())
        .resolve(None, None)
        .err()
        .unwrap();
    assert!(matches!(err, SkailarError::MissingApiKey));
}

#[test]
fn resolve_defaults_and_overrides() {
    let config = ClientOptions::new()
        .resolve(Some("env".to_string()), Some("http://localhost:1234".to_string()))
        .unwrap();
    assert_eq!(config.max_retries, DEFAULT_MAX_RETRIES);
    assert_eq!(config.base_url, "http://localhost:1234/");
    assert_eq!(config.api_key.header_value(), "Bearer env");
    let config = ClientOptions::new()
        .api_key("k".to_string())
        .max_retries(0)
        .default_header("X-Trace-Id", "abc123")
        .default_header("bad name", "v")
        .default_header("x-ok", "bad\nvalue")
        .resolve(None, None)
        .unwrap();
    assert_eq!(config.max_retries, 0);
    let names: Vec<&str> = config.default_headers.entries().iter().map(|e| e.name.as_str()).collect();
    assert_eq!(names, vec!["x-trace-id"]);
    assert_eq!(config.default_headers.entries()[0].value, "abc123");
}

#[test]
fn endpoint_rejects_unparseable_join_and_trims_slashes() {
    assert_eq!(
        endpoint("http://h.example///", "//v1/ping-key").unwrap(),
        "http://h.example/v1/ping-key"
    );
    assert!(matches!(endpoint("nope", "v1"), Err(SkailarError::InvalidBaseUrl(_))));
}

#[test]
fn retry_after_parsing_edges() {
    assert_eq!(parse_retry_after(None), None);
    assert_eq!(parse_retry_after(Some("  7 ")), Some(7));
    assert_eq!(parse_retry_after(Some("0")), Some(0));
    assert_eq!(parse_retry_after(Some("+5")), Some(5));
    assert_eq!(parse_retry_after(Some("-5")), None);
    assert_eq!(parse_retry_after(Some("1.5")), None);
    assert_eq!(parse_retry_after(Some("")), None);
    assert_eq!(parse_retry_after(Some("18446744073709551615")), Some(u64::MAX));
    assert_eq!(parse_retry_after(Some("18446744073709551616")), None);
    assert_eq!(parse_u64("0042"), Some(42));
    assert_eq!(parse_u64("+"), None);
}

#[test]
fn request_id_fallbacks() {
    assert_eq!(extract_request_id(None, Some("b"), Some("c")).as_deref(), Some("b"));
    assert_eq!(extract_request_id(None, None, Some("c")).as_deref(), Some("c"));
    assert_eq!(extract_request_id(None, None, None), None);
}

#[test]
fn timeout_defaults_to_sixty_seconds() {
    let config = ClientOptions::new().api_key("k".to_string()).resolve(None, None).unwrap();
    assert_eq!((config.timeout_secs, config.timeout_subsec_nanos), (60, 0));
    let options = ClientOptions::new().api_key("k".to_string()).timeout(1, 500_000_000);
    assert_eq!(options.explicit_timeout(), Some((1, 500_000_000)));
    let config = options.resolve(None, None).unwrap();
    assert_eq!((config.timeout_secs, config.timeout_subsec_nanos), (1, 500_000_000));
}

#[test]
fn api_key_debug_text_is_redacted() {
    let key = skailar::auth::ApiKey::new("skl_live_secret".to_string());
    assert_eq!(key.redacted(), "ApiKey(***redacted***)");
    assert!(!key.redacted().contains("secret"));
}
