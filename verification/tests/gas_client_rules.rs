use act_api_server::config::{parse_apps_script_url, YoutubeConfig};
use act_api_server::gas_client::{
    check_declared_length, interpret_body, preview, redact_map_for_audit, redirect_decision,
    GasEnvelope, GasError, RedirectDecision, YoutubeClientError, YoutubeGasClient, MAX_REDIRECTS,
};
use act_api_server::json::{object_get, Json, JsonMember};
use act_api_server::youtube::YoutubeAction;

fn url(text: &str) -> act_api_server::web_url::UrlParts {
    parse_apps_script_url(text).expect("url")
}

fn client(allow_public_actions: bool) -> YoutubeGasClient {
    YoutubeGasClient::new(&YoutubeConfig {
        web_app_url: url("https://script.google.com/macros/s/deploy-1/exec"),
        api_key: "server-side-api-key-0123456789abcdef".to_string(),
        expected_channel_handle: "@anticaptrad".to_string(),
        timeout_secs: 30,
        max_response_bytes: 1024,
        allow_public_actions,
    })
}

fn member(key: &str, value: Json) -> JsonMember {
    JsonMember::new(key.to_string(), value)
}

#[test]
fn declared_length_is_checked_before_reading() {
    assert!(check_declared_length(None, 10).is_ok());
    assert!(check_declared_length(Some(10), 10).is_ok());
    assert!(matches!(
        check_declared_length(Some(11), 10),
        Err(YoutubeClientError::ResponseTooLarge { max_bytes: 10 })
    ));
}

#[test]
fn ok_envelope_gives_its_data() {
    let envelope = GasEnvelope { ok: true, data: Some(Json::Bool(true)), error: None };
    let result = interpret_body(200, Some("OK".to_string()), url("https://script.google.com/macros/s/d/exec"), None, b"{}", Ok(envelope), 1024);
    assert!(matches!(result, Ok(Json::Bool(true))));
    let envelope = GasEnvelope { ok: true, data: None, error: None };
    let result = interpret_body(200, None, url("https://script.google.com/macros/s/d/exec"), None, b"{}", Ok(envelope), 1024);
    assert!(matches!(result, Ok(Json::Null)));
}

#[test]
fn failed_envelope_gives_its_error() {
    let envelope = GasEnvelope {
        ok: false,
        data: None,
        error: Some(GasError { message: "nope".to_string(), code: "DENIED".to_string(), details: None }),
    };
    let error = interpret_body(200, None, url("https://script.google.com/macros/s/d/exec"), None, b"{}", Ok(envelope), 1024)
        .unwrap_err();
    assert_eq!(error.code(), "YOUTUBE_GAS_APPLICATION_ERROR");
    assert_eq!(error.message(), "Apps Script DENIED: nope");
    let envelope = GasEnvelope { ok: false, data: None, error: None };
    let error = interpret_body(200, None, url("https://script.google.com/macros/s/d/exec"), None, b"{}", Ok(envelope), 1024)
        .unwrap_err();
    assert_eq!(
        error.message(),
        "Apps Script UNKNOWN_UPSTREAM_ERROR: Apps Script returned ok=false without an error object"
    );
}

#[test]
fn oversized_and_unparsable_bodies() {
    let envelope = GasEnvelope { ok: true, data: None, error: None };
    let error = interpret_body(200, None, url("https://script.google.com/macros/s/d/exec"), None, &[b'x'; 20], Ok(envelope), 10)
        .unwrap_err();
    assert_eq!(error.message(), "Apps Script response exceeded 10 bytes");
    let error = interpret_body(200, None, url("https://script.google.com/macros/s/d/exec"), None, b"<html>", Err("expected value".to_string()), 1024)
        .unwrap_err();
    assert_eq!(error.code(), "YOUTUBE_GAS_INVALID_JSON");
    assert_eq!(error.message(), "Apps Script returned invalid JSON (expected value); preview: <html>");
}

#[test]
fn sign_in_redirect_means_owner_only() {
    let envelope = GasEnvelope { ok: true, data: None, error: None };
    let error = interpret_body(
        302,
        Some("Found".to_string()),
        url("https://script.google.com/macros/s/d/exec"),
        Some("https://accounts.google.com/ServiceLogin".to_string()),
        b"",
        Ok(envelope),
        1024,
    )
    .unwrap_err();
    assert_eq!(error.code(), "YOUTUBE_GAS_OWNER_ONLY");
    assert!(error.message().starts_with("Apps Script returned redirect 302 Found from "));
    let details = error.details().expect("details");
    assert!(matches!(object_get(&details, "locationHost"), Some(Json::Str(h)) if h == "accounts.google.com"));
    let envelope = GasEnvelope { ok: true, data: None, error: None };
    let error = interpret_body(500, None, url("https://script.google.com/macros/s/d/exec"), None, b"boom", Ok(envelope), 1024)
        .unwrap_err();
    assert_eq!(error.code(), "YOUTUBE_GAS_UPSTREAM_HTTP_ERROR");
}

#[test]
fn previews_are_bounded_and_lossy() {
    assert_eq!(preview(b"hello"), "hello");
    assert_eq!(preview(&[b'a'; 600]).chars().count(), 500);
    assert_eq!(preview(&[0x66, 0xff, 0x6f]), "f\u{fffd}o");
}

#[test]
fn audit_keeps_only_listed_fields() {
    let payload = Json::Object(vec![
        member("videoId", Json::Str("v1".to_string())),
        member("description", Json::Str("secret text".to_string())),
        member("apiKey", Json::Str("leak".to_string())),
        member("commit", Json::Str("abc".to_string())),
    ]);
    let audit = redact_map_for_audit(&payload);
    assert_eq!(audit.len(), 2);
    assert!(object_get(&audit, "videoId").is_some());
    assert!(object_get(&audit, "commit").is_some());
    assert!(object_get(&audit, "description").is_none());
    assert!(object_get(&audit, "apiKey").is_none());
    assert!(redact_map_for_audit(&Json::Null).is_empty());
}

#[test]
fn request_body_adds_action_and_key() {
    let body = client(false)
        .request_body(YoutubeAction::Channel, Json::Object(vec![]), None)
        .expect("read action");
    assert!(matches!(object_get(&body, "action"), Some(Json::Str(a)) if a == "channel"));
    assert!(matches!(object_get(&body, "apiKey"), Some(Json::Str(k)) if k == "server-side-api-key-0123456789abcdef"));
    let error = client(false)
        .request_body(YoutubeAction::SendDigest, Json::Object(vec![]), None)
        .unwrap_err();
    assert_eq!(error.code(), "VALIDATION_ERROR");
    assert_eq!(error.message(), "mutating actions require an Idempotency-Key header");
}

#[test]
fn client_settings() {
    let c = client(true);
    assert_eq!(c.deployment_id().as_deref(), Some("deploy-1"));
    assert_eq!(c.expected_channel_handle(), "@anticaptrad");
    assert!(c.allow_public_actions());
    assert_eq!(c.timeout_secs(), 30);
    assert_eq!(c.max_response_bytes(), 1024);
    let status = c.status_document();
    assert_eq!(status.len(), 6);
    assert!(!format!("{status:?}").contains("server-side-api-key"));
}

#[test]
fn redirects_follow_only_google_script_hosts() {
    assert_eq!(redirect_decision(0, Some("script.googleusercontent.com")), RedirectDecision::Follow);
    assert_eq!(redirect_decision(4, Some("script.google.com")), RedirectDecision::Follow);
    assert_eq!(redirect_decision(0, Some("accounts.google.com")), RedirectDecision::Stop);
    assert_eq!(redirect_decision(0, None), RedirectDecision::Stop);
    assert_eq!(redirect_decision(MAX_REDIRECTS, Some("script.google.com")), RedirectDecision::TooMany);
}
