use krfx::config::{default_host, default_port, ConfigEnvironment};
use krfx::errors::{ApiError, NameError, RecordRequestError, RecordRequestErrorType};
use krfx::json::json_quote;

#[test]
fn default_host_is_loopback() {
    assert_eq!(default_host(), "127.0.0.1");
}

#[test]
fn default_port_is_4000() {
    assert_eq!(default_port(), 4000);
}

#[test]
fn config_default_is_empty() {
    let cfg = ConfigEnvironment::default();
    assert_eq!(cfg.host, "");
    assert_eq!(cfg.port, 0);
    assert_eq!(cfg.database_url, "");
    assert_eq!(cfg.secret, "");
    assert_eq!(cfg.salt, "");
    assert_eq!(cfg.bucket_name, "");
    assert_eq!(cfg.cdn_url, "");
}

#[test]
fn config_with_defaults_fills_host_and_port() {
    let cfg = ConfigEnvironment::with_defaults(
        None,
        None,
        Some("postgres://db".to_string()),
        Some("s3cret".to_string()),
        None,
        Some("bucket".to_string()),
        None,
    );
    assert_eq!(cfg.host, "127.0.0.1");
    assert_eq!(cfg.port, 4000);
    assert_eq!(cfg.database_url, "postgres://db");
    assert_eq!(cfg.secret, "s3cret");
    assert_eq!(cfg.salt, "");
    assert_eq!(cfg.bucket_name, "bucket");
    assert_eq!(cfg.cdn_url, "");
}

#[test]
fn config_with_defaults_keeps_given_values() {
    let cfg = ConfigEnvironment::with_defaults(
        Some("0.0.0.0".to_string()),
        Some(8080),
        None,
        None,
        Some("pepper".to_string()),
        None,
        Some("https://cdn.example/".to_string()),
    );
    assert_eq!(cfg.host, "0.0.0.0");
    assert_eq!(cfg.port, 8080);
    assert_eq!(cfg.salt, "pepper");
    assert_eq!(cfg.cdn_url, "https://cdn.example/");
}

#[test]
fn record_request_error_keeps_type_and_message() {
    let e = RecordRequestError::new(RecordRequestErrorType::Url, "Invalid URL".to_string());
    assert_eq!(e.error_type(), RecordRequestErrorType::Url);
    assert_eq!(e.to_string(), "Invalid URL");
    assert_eq!(e.status_code(), 400);
}

#[test]
fn record_request_error_json() {
    let e = RecordRequestError::new(RecordRequestErrorType::Name, "Name is too short".to_string());
    assert_eq!(e.to_json(), r#"{"error_type":"name","message":"Name is too short"}"#);
    let e = RecordRequestError::new(RecordRequestErrorType::Url, "Invalid URL".to_string());
    assert_eq!(e.to_json(), r#"{"error_type":"url","message":"Invalid URL"}"#);
}

#[test]
fn record_request_error_json_matches_serde() {
    let msg = "say \"hi\"\n\\ \u{1} \u{7f} é".to_string();
    let e = RecordRequestError::new(RecordRequestErrorType::Name, msg.clone());
    let mut expected = serde_json::Map::new();
    expected.insert("error_type".to_string(), serde_json::Value::String("name".to_string()));
    expected.insert("message".to_string(), serde_json::Value::String(msg));
    let parsed: serde_json::Value = serde_json::from_str(&e.to_json()).unwrap();
    assert_eq!(parsed, serde_json::Value::Object(expected));
}

#[test]
fn record_request_error_body_is_json_string() {
    let e = RecordRequestError::new(RecordRequestErrorType::Url, "Invalid URL".to_string());
    assert_eq!(
        e.error_response_body(),
        r#""{\"error_type\":\"url\",\"message\":\"Invalid URL\"}""#
    );
    let inner: String = serde_json::from_str(&e.error_response_body()).unwrap();
    assert_eq!(inner, e.to_json());
}

#[test]
fn json_quote_escapes_like_serde_json() {
    let samples = ["", "plain", "a\"b", "back\\slash", "tab\tnl\ncr\r", "\u{0}\u{8}\u{c}\u{1f}", "ünï©ødé ✓", "/slash/"];
    for s in samples {
        assert_eq!(json_quote(s), serde_json::to_string(s).unwrap());
    }
    assert_eq!(json_quote("\u{1}"), "\"\\u0001\"");
    assert_eq!(json_quote("\u{1b}"), "\"\\u001b\"");
}

#[test]
fn name_error_displays_as_json() {
    let e = NameError::new("This name is used");
    assert_eq!(e.message(), "This name is used");
    assert_eq!(e.to_string(), r#"{"msg":"This name is used","type":"name"}"#);
    assert_eq!(e.status_code(), 400);
}

#[test]
fn api_error_new() {
    let e = ApiError::new(404, "Record not found");
    assert_eq!(e.status, 404);
    assert_eq!(e.message, "Record not found");
}
