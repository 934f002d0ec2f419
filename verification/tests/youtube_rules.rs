use act_api_server::json::{object_get, Json, JsonMember};
use act_api_server::youtube::{prepare_payload, validate_idempotency_key, ValidationError, YoutubeAction};

fn object(members: Vec<(&str, Json)>) -> Json {
    Json::Object(
        members
            .into_iter()
            .map(|(key, value)| JsonMember::new(key.to_string(), value))
            .collect(),
    )
}

fn text(value: &str) -> Json {
    Json::Str(value.to_string())
}

fn string_at<'a>(members: &'a Vec<JsonMember>, key: &str) -> Option<&'a str> {
    match object_get(members, key) {
        Some(Json::Str(value)) => Some(value.as_str()),
        _ => None,
    }
}

fn upload(extra: Vec<(&str, Json)>) -> Json {
    let mut members = vec![
        ("driveFileId", text("drive-1")),
        ("title", text("A title")),
        ("rightsConfirmed", Json::Bool(true)),
    ];
    members.extend(extra);
    object(members)
}

fn publication() -> Json {
    object(vec![
        ("videoId", text("abc123")),
        ("privacyStatus", text("public")),
        ("confirmation", text("PUBLISH abc123 AS PUBLIC")),
    ])
}

#[test]
fn parses_only_supported_actions() {
    assert_eq!(YoutubeAction::parse("channel"), Some(YoutubeAction::Channel));
    assert_eq!(YoutubeAction::parse("rotateApiKey"), None);
    assert_eq!(YoutubeAction::parse("setup"), None);
}

#[test]
fn uploads_are_private_and_idempotent() {
    let payload = prepare_payload(
        YoutubeAction::StartUpload,
        upload(vec![]),
        Some("upload-2026-07-27-001"),
        false,
    )
    .expect("valid upload");
    assert_eq!(string_at(&payload, "idempotencyKey"), Some("upload-2026-07-27-001"));
    assert_eq!(string_at(&payload, "controlRequestId"), Some("upload-2026-07-27-001"));
}

#[test]
fn rejects_public_upload_shortcut() {
    let error = prepare_payload(
        YoutubeAction::StartUpload,
        upload(vec![("privacyStatus", text("public"))]),
        Some("upload-1"),
        true,
    )
    .expect_err("upload must remain private");
    assert!(error.message().contains("must remain private"));
}

#[test]
fn public_publish_requires_both_switch_and_exact_phrase() {
    assert!(prepare_payload(YoutubeAction::PublishVideo, publication(), Some("publish-1"), false).is_err());
    assert!(prepare_payload(YoutubeAction::PublishVideo, publication(), Some("publish-1"), true).is_ok());
}

#[test]
fn mutating_actions_require_idempotency_header() {
    assert!(prepare_payload(YoutubeAction::SendDigest, object(vec![]), None, false).is_err());
    assert!(prepare_payload(YoutubeAction::Channel, object(vec![]), None, false).is_ok());
}

#[test]
fn wrong_confirmation_phrase_names_the_expected_one() {
    let payload = object(vec![
        ("videoId", text("abc123")),
        ("privacyStatus", text("public")),
        ("confirmation", text("publish abc123 as public")),
    ]);
    let error = prepare_payload(YoutubeAction::PublishVideo, payload, Some("publish-1"), true)
        .expect_err("phrase differs");
    assert_eq!(
        error.message(),
        "confirmation must exactly equal \"PUBLISH abc123 AS PUBLIC\""
    );
}

#[test]
fn upload_needs_rights_and_fields() {
    let payload = object(vec![("driveFileId", text("drive-1")), ("title", text("A title"))]);
    let error = prepare_payload(YoutubeAction::StartUpload, payload, Some("upload-1"), false)
        .expect_err("rights");
    assert!(matches!(error, ValidationError::RightsNotConfirmed));
    let payload = object(vec![("title", text("A title")), ("rightsConfirmed", Json::Bool(true))]);
    let error = prepare_payload(YoutubeAction::StartUpload, payload, Some("upload-1"), false)
        .expect_err("drive file");
    assert_eq!(error.message(), "driveFileId is required and must be non-empty");
    let error = prepare_payload(
        YoutubeAction::StartUpload,
        upload(vec![("idempotencyKey", text("other"))]),
        Some("upload-1"),
        false,
    )
    .expect_err("mismatch");
    assert!(matches!(error, ValidationError::IdempotencyKeyMismatch));
}

#[test]
fn body_must_be_an_object() {
    let error = prepare_payload(YoutubeAction::Channel, Json::Array(vec![]), None, false)
        .expect_err("array");
    assert_eq!(error.message(), "request body must be a JSON object");
}

#[test]
fn idempotency_keys_are_bounded_printable_ascii() {
    assert!(validate_idempotency_key("abc-123").is_ok());
    assert!(matches!(validate_idempotency_key(""), Err(ValidationError::IdempotencyKeyLength)));
    assert!(matches!(
        validate_idempotency_key(&"k".repeat(201)),
        Err(ValidationError::IdempotencyKeyLength)
    ));
    assert!(matches!(
        validate_idempotency_key("with space"),
        Err(ValidationError::IdempotencyKeyCharacters)
    ));
}

#[test]
fn action_names_round_trip() {
    for action in [
        YoutubeAction::Channel,
        YoutubeAction::ExportAnalytics,
        YoutubeAction::WorkspaceUsers,
        YoutubeAction::PublishVideo,
    ] {
        assert_eq!(YoutubeAction::parse(action.as_str()), Some(action));
    }
    assert!(YoutubeAction::SendDigest.is_mutating());
    assert!(!YoutubeAction::Videos.is_mutating());
}
