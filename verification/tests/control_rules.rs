use act_api_server::auth::AuthFailure;
use act_api_server::config::YoutubeConfig;
use act_api_server::control::{
    action_request_id, admit_action, check_operation_id, execute_operation, format_request_id, lifecycle_subject,
    operation_status_response, operation_workers, ready_document, success_body,
    transport_auth_failure, youtube_status_body, ActionStage, ApiError, HeaderReading, OperationWorkers,
    RequestIds, StartupError, BEARER_CHALLENGE,
};
use act_api_server::config::parse_apps_script_url;
use act_api_server::gas_client::{YoutubeClientError, YoutubeGasClient};
use act_api_server::json::{object_get, Json, JsonMember};
use act_api_server::transport_runtime::{AuthenticatedOperation, OperationStatus, TransportError};
use act_api_server::web_data_plane::{unix_time_ms, DataOperation, OperationEnvelope};
use act_api_server::youtube::{ValidationError, YoutubeAction};

fn members(json: &Json) -> &Vec<JsonMember> {
    match json {
        Json::Object(ms) => ms,
        other => panic!("not an object: {other:?}"),
    }
}

fn string_at<'a>(json: &'a Json, key: &str) -> Option<&'a str> {
    match object_get(members(json), key) {
        Some(Json::Str(value)) => Some(value.as_str()),
        _ => None,
    }
}

fn bool_at(json: &Json, key: &str) -> Option<bool> {
    match object_get(members(json), key) {
        Some(Json::Bool(value)) => Some(*value),
        _ => None,
    }
}

fn client() -> YoutubeGasClient {
    YoutubeGasClient::new(&YoutubeConfig {
        web_app_url: parse_apps_script_url("https://script.google.com/macros/s/deploy-1/exec")
            .expect("url"),
        api_key: "k".repeat(40),
        expected_channel_handle: "@anticaptrad".to_string(),
        timeout_secs: 30,
        max_response_bytes: 4194304,
        allow_public_actions: false,
    })
}

fn operation(resource: &str, payload: Json) -> AuthenticatedOperation {
    AuthenticatedOperation {
        authorization: "Bearer valid".to_string(),
        envelope: OperationEnvelope {
            version: 1,
            operation_id: "operation-1".to_string(),
            subject: "actor-1".to_string(),
            resource: resource.to_string(),
            operation: DataOperation::Read,
            payload,
            deadline_unix_ms: unix_time_ms() + 60_000,
            dedupe_key: Some("operation-1".to_string()),
        },
    }
}

#[test]
fn request_ids_are_unique() {
    let mut ids = RequestIds::new();
    assert_ne!(ids.request_id(), ids.request_id());
}

#[test]
fn request_id_layout() {
    assert_eq!(format_request_id(1700000000123, 7), "yt-1700000000123-7");
    assert_eq!(format_request_id(0, 0), "yt-0-0");
    let mut ids = RequestIds::new();
    let first = ids.request_id();
    assert!(first.starts_with("yt-"));
    assert!(first.ends_with("-1"));
    assert!(ids.request_id().ends_with("-2"));
}

#[test]
fn idempotency_key_is_the_request_id() {
    let mut ids = RequestIds::new();
    assert_eq!(action_request_id(Some("upload-1"), &mut ids), "upload-1");
    assert!(action_request_id(None, &mut ids).ends_with("-1"));
}

#[test]
fn administrative_errors_fail_closed() {
    let closed = ApiError::shared_auth_not_configured();
    assert_eq!(closed.status, 503);
    assert_eq!(closed.code, "SHARED_AUTH_NOT_CONFIGURED");
    let unauthorized = ApiError::for_auth_failure(AuthFailure::Missing);
    assert_eq!(unauthorized.status, 401);
    assert_eq!(unauthorized.code, "UNAUTHORIZED");
    assert_eq!(unauthorized.challenge(), Some(BEARER_CHALLENGE));
    let unavailable = ApiError::for_auth_failure(AuthFailure::Unavailable);
    assert_eq!(unavailable.status, 503);
    assert_eq!(unavailable.code, "SHARED_AUTH_UNAVAILABLE");
    assert_eq!(unavailable.challenge(), None);
}

#[test]
fn route_errors() {
    let unknown = ApiError::unknown_action("rotateApiKey");
    assert_eq!(unknown.status, 404);
    assert_eq!(unknown.message, "unsupported YouTube action: rotateApiKey");
    let header = ApiError::invalid_header("idempotency-key");
    assert_eq!(header.status, 400);
    assert_eq!(header.message, "idempotency-key must contain valid ASCII");
    assert_eq!(ApiError::youtube_not_configured().code, "YOUTUBE_GAS_NOT_CONFIGURED");
    assert_eq!(ApiError::durable_operations_not_configured().status, 503);
}

#[test]
fn youtube_errors_map_to_status() {
    let validation = ApiError::from_youtube(
        YoutubeClientError::Validation(ValidationError::MissingIdempotencyKey),
        "req-1".to_string(),
    );
    assert_eq!(validation.status, 400);
    assert_eq!(validation.code, "VALIDATION_ERROR");
    assert_eq!(validation.request_id.as_deref(), Some("req-1"));
    let upstream = ApiError::from_youtube(YoutubeClientError::Http("timeout".to_string()), "req-2".to_string());
    assert_eq!(upstream.status, 502);
    assert_eq!(upstream.message, "Apps Script request failed: timeout");
    let too_large = ApiError::from_youtube(
        YoutubeClientError::ResponseTooLarge { max_bytes: 10 },
        "req-3".to_string(),
    );
    assert!(too_large.details.is_some());
    let body = too_large.into_body();
    assert_eq!(bool_at(&body, "ok"), Some(false));
    assert_eq!(string_at(&body, "requestId"), Some("req-3"));
    let error = object_get(members(&body), "error").expect("error object");
    assert_eq!(string_at(error, "code"), Some("YOUTUBE_GAS_RESPONSE_TOO_LARGE"));
    assert!(object_get(members(error), "details").is_some());
}

#[test]
fn error_body_omits_absent_parts() {
    let body = ApiError::operation_not_found().into_body();
    assert!(object_get(members(&body), "requestId").is_none());
    let error = object_get(members(&body), "error").expect("error object");
    assert_eq!(string_at(error, "message"), Some("operation not found"));
    assert!(object_get(members(error), "details").is_none());
}

#[test]
fn operation_ids_are_checked() {
    assert!(check_operation_id("op-1").is_ok());
    assert_eq!(check_operation_id("").unwrap_err().code, "INVALID_OPERATION_ID");
    assert!(check_operation_id(" op").is_err());
    assert!(check_operation_id(&"x".repeat(129)).is_err());
    assert!(check_operation_id(&"x".repeat(128)).is_ok());
}

#[test]
fn status_lookups() {
    assert_eq!(
        operation_status_response(Err(TransportError::Database)).unwrap_err().code,
        "DURABLE_OPERATION_STATUS_UNAVAILABLE"
    );
    assert_eq!(operation_status_response(Ok(None)).unwrap_err().status, 404);
    let body = operation_status_response(Ok(Some(OperationStatus {
        operation_id: "op-1".to_string(),
        status: "completed".to_string(),
        result: None,
    })))
    .expect("record");
    assert_eq!(bool_at(&body, "ok"), Some(true));
    let data = object_get(members(&body), "data").expect("data");
    assert_eq!(string_at(data, "status"), Some("completed"));
    assert!(matches!(object_get(members(data), "result"), Some(Json::Null)));
}

#[test]
fn lifecycle_subjects() {
    assert_eq!(
        lifecycle_subject(YoutubeAction::StartUpload, ActionStage::Requested),
        "act.youtube.startUpload.requested"
    );
    assert_eq!(
        lifecycle_subject(YoutubeAction::Channel, ActionStage::Failed),
        "act.youtube.channel.failed"
    );
}

#[test]
fn documents() {
    let ready = ready_document(false, true, true, false);
    assert_eq!(bool_at(&ready, "ready"), Some(true));
    assert_eq!(bool_at(&ready, "nats_connected"), Some(false));
    assert_eq!(bool_at(&ready, "durable_operations_configured"), Some(false));
    let body = success_body("req-1", 12, Json::Null);
    match object_get(members(&body), "durationMs") {
        Some(Json::Number(n)) => assert_eq!(n, "12"),
        other => panic!("unexpected {other:?}"),
    }
    let status = youtube_status_body(&client());
    let data = object_get(members(&status), "data").expect("data");
    assert_eq!(string_at(data, "deploymentId"), Some("deploy-1"));
    assert_eq!(bool_at(data, "appsScriptApiKeyExposed"), Some(false));
    assert!(!format!("{status:?}").contains(&"k".repeat(40)));
}

#[test]
fn every_transport_operation_is_bound_to_its_subject() {
    let request = operation("youtube_status", Json::Object(Vec::new()));
    let youtube = client();
    assert_eq!(
        execute_operation("actor-2", &request, Some(&youtube)).unwrap_err(),
        TransportError::Unauthorized
    );
    let result = execute_operation("actor-1", &request, Some(&youtube)).expect("status");
    assert_eq!(bool_at(&result, "configured"), Some(true));
    assert_eq!(
        execute_operation("actor-1", &request, None).unwrap_err(),
        TransportError::UnsupportedOperation
    );
    let other = operation("youtube_channels", Json::Object(Vec::new()));
    assert_eq!(
        execute_operation("actor-1", &other, Some(&youtube)).unwrap_err(),
        TransportError::UnsupportedOperation
    );
    let with_payload = operation(
        "youtube_status",
        Json::Object(vec![JsonMember::new("x".to_string(), Json::Null)]),
    );
    assert_eq!(
        execute_operation("actor-1", &with_payload, Some(&youtube)).unwrap_err(),
        TransportError::UnsupportedOperation
    );
    assert_eq!(transport_auth_failure(AuthFailure::Invalid), TransportError::Unauthorized);
    assert_eq!(transport_auth_failure(AuthFailure::Unavailable), TransportError::AuthUnavailable);
}

#[test]
fn workers_need_shared_auth() {
    assert_eq!(
        operation_workers(false, true, true, true),
        Err(StartupError::MtlsRequiresSharedAuth)
    );
    assert_eq!(
        operation_workers(false, false, true, true),
        Ok(OperationWorkers { mtls_listener: false, jetstream_worker: false })
    );
    assert_eq!(
        operation_workers(true, true, true, false),
        Ok(OperationWorkers { mtls_listener: true, jetstream_worker: false })
    );
    assert_eq!(
        operation_workers(true, false, true, true),
        Ok(OperationWorkers { mtls_listener: false, jetstream_worker: true })
    );
}

#[test]
fn action_requests_are_admitted_in_order() {
    let (action, key) = admit_action("startUpload", HeaderReading::Present("k-1".to_string()))
        .expect("admitted");
    assert_eq!(action, YoutubeAction::StartUpload);
    assert_eq!(key.as_deref(), Some("k-1"));
    assert_eq!(admit_action("channel", HeaderReading::Absent).expect("read").1, None);
    let unknown = admit_action("rotateApiKey", HeaderReading::Unreadable).unwrap_err();
    assert_eq!(unknown.status, 404);
    let header = admit_action("channel", HeaderReading::Unreadable).unwrap_err();
    assert_eq!(header.status, 400);
    assert_eq!(header.message, "idempotency-key must contain valid ASCII");
}
