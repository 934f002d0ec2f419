use act_api_server::json::{Json, JsonMember};
use act_api_server::transport_runtime::{
    check_completed_rows, check_reply_size, claim_action, classify_claim, completion_text,
    concurrency_ok, connection_limit_ok, max_message_size, payload_within_limit,
    request_fingerprint, request_text, result_publication, validate_authorization,
    AuthenticatedOperation, DeliveryAction, DeliveryCommand, DeliveryEvent, DeliveryPhase, ExecutionOutcome, JetStreamConfig, JournalClaim,
    OperationReply, StoredClaim, TransportError, JETSTREAM_RESULT_SUBJECT, MAX_TRANSPORT_BYTES,
    PROCESSING_RETRY_MS,
};
use act_api_server::web_data_plane::{unix_time_ms, DataOperation, OperationEnvelope, WebApiMode};

fn request(authorization: &str) -> AuthenticatedOperation {
    AuthenticatedOperation {
        authorization: authorization.to_string(),
        envelope: OperationEnvelope {
            version: 1,
            operation_id: "operation-1".to_string(),
            subject: "actor-1".to_string(),
            resource: "youtube_status".to_string(),
            operation: DataOperation::Read,
            payload: Json::Object(Vec::new()),
            deadline_unix_ms: unix_time_ms() + 60_000,
            dedupe_key: Some("operation-1".to_string()),
        },
    }
}

/// The request as JSON text, with the field names the transports use.
fn encoded(op: &AuthenticatedOperation) -> Vec<u8> {
    let mut envelope = serde_json::Map::new();
    envelope.insert("version".to_string(), serde_json::Value::from(op.envelope.version));
    envelope.insert("operationId".to_string(), serde_json::Value::from(op.envelope.operation_id.clone()));
    envelope.insert("subject".to_string(), serde_json::Value::from(op.envelope.subject.clone()));
    envelope.insert("resource".to_string(), serde_json::Value::from(op.envelope.resource.clone()));
    envelope.insert("operation".to_string(), serde_json::Value::from("read"));
    envelope.insert("payload".to_string(), serde_json::Value::Object(serde_json::Map::new()));
    envelope.insert("deadlineUnixMs".to_string(), serde_json::Value::from(op.envelope.deadline_unix_ms));
    envelope.insert("dedupeKey".to_string(), serde_json::Value::from(op.envelope.dedupe_key.clone()));
    let mut object = serde_json::Map::new();
    object.insert("authorization".to_string(), serde_json::Value::from(op.authorization.clone()));
    object.insert("envelope".to_string(), serde_json::Value::Object(envelope));
    serde_json::to_vec(&serde_json::Value::Object(object)).expect("request")
}

fn envelope_len(op: &AuthenticatedOperation) -> usize {
    encoded(op).len()
}

#[test]
fn request_is_strict_bounded_and_rejects_ambiguous_bearers() {
    let ambiguous = request("Bearer token extra");
    assert_eq!(
        ambiguous.validate(WebApiMode::StatefulMtlsTcp, envelope_len(&ambiguous)),
        Err(TransportError::Unauthorized)
    );
    let encoded = encoded(&request("Bearer valid"));
    assert!(encoded.len() <= MAX_TRANSPORT_BYTES);
}

#[test]
fn durable_contract_fingerprints_are_stable_and_distinct() {
    assert_eq!(request_fingerprint(b"same"), request_fingerprint(b"same"));
    assert_ne!(request_fingerprint(b"same"), request_fingerprint(b"different"));
    assert_eq!(
        request_fingerprint(b""),
        "e3b0c44298fc1c149afbf4c8996fb92427ae41e4649b934ca495991b7852b855"
    );
    assert_eq!(
        request_fingerprint(b"abc"),
        "ba7816bf8f01cfea414140de5dae2223b00361a396177a9cb410ff61f20015ad"
    );
}

#[test]
fn valid_requests_pass_on_every_transport() {
    let valid = request("Bearer valid");
    let len = envelope_len(&valid);
    assert_eq!(valid.validate(WebApiMode::StatefulMtlsTcp, len), Ok(()));
    assert_eq!(valid.validate(WebApiMode::JetStreamAsync, len), Ok(()));
    let mut expired = request("Bearer valid");
    expired.envelope.deadline_unix_ms = 1;
    assert_eq!(
        expired.validate(WebApiMode::StatefulMtlsTcp, len),
        Err(TransportError::InvalidRequest)
    );
}

#[test]
fn authorization_values() {
    assert_eq!(validate_authorization("Bearer abc"), Ok(()));
    assert_eq!(validate_authorization("bearer abc"), Err(TransportError::Unauthorized));
    assert_eq!(validate_authorization("Bearer "), Err(TransportError::Unauthorized));
    assert_eq!(validate_authorization("Bearer a b"), Err(TransportError::Unauthorized));
    let long = format!("Bearer {}", "t".repeat(16 * 1024));
    assert_eq!(validate_authorization(&long), Err(TransportError::Unauthorized));
    let limit = format!("Bearer {}", "t".repeat(16 * 1024 - 7));
    assert_eq!(validate_authorization(&limit), Ok(()));
}

#[test]
fn error_codes_hide_internal_failures() {
    assert_eq!(TransportError::InvalidRequest.code(), "invalid_request");
    assert_eq!(TransportError::Unauthorized.code(), "unauthorized");
    assert_eq!(TransportError::AuthUnavailable.code(), "auth_unavailable");
    assert_eq!(TransportError::UnsupportedOperation.code(), "unsupported_operation");
    assert_eq!(TransportError::Timeout.code(), "operation_timeout");
    for internal in [TransportError::Database, TransportError::InvalidState, TransportError::Transport] {
        assert_eq!(internal.code(), "temporarily_unavailable");
        assert_eq!(internal.to_string(), "temporarily_unavailable");
    }
}

#[test]
fn replies_for_each_outcome() {
    let reply = OperationReply::for_outcome(
        "op-1".to_string(),
        ExecutionOutcome::Completed(Json::Bool(true)),
    );
    assert_eq!(reply.operation_id.as_deref(), Some("op-1"));
    assert!(reply.error.is_none());
    assert!(matches!(reply.result, Some(Json::Bool(true))));
    let reply = OperationReply::for_outcome(
        "op-1".to_string(),
        ExecutionOutcome::Failed(TransportError::Unauthorized),
    );
    assert_eq!(reply.error.as_deref(), Some("unauthorized"));
    assert!(reply.result.is_none());
    let reply = OperationReply::for_outcome("op-1".to_string(), ExecutionOutcome::TimedOut);
    assert_eq!(reply.error.as_deref(), Some("operation_timeout"));
    let reply = OperationReply::invalid_request();
    assert!(reply.operation_id.is_none());
    assert_eq!(reply.error.as_deref(), Some("invalid_request"));
}

#[test]
fn transport_bounds() {
    assert!(payload_within_limit(MAX_TRANSPORT_BYTES));
    assert!(!payload_within_limit(MAX_TRANSPORT_BYTES + 1));
    assert_eq!(check_reply_size(MAX_TRANSPORT_BYTES + 1), Err(TransportError::Transport));
    assert!(connection_limit_ok(128));
    assert!(!connection_limit_ok(0));
    assert!(!connection_limit_ok(129));
    assert!(concurrency_ok(32));
    assert!(!concurrency_ok(33));
    assert_eq!(max_message_size(), 65536);
}

fn stored(subject: &str, hash: &str, status: &str, result: Option<&str>) -> StoredClaim {
    StoredClaim {
        subject: subject.to_string(),
        request_hash: hash.to_string(),
        status: status.to_string(),
        result_json: result.map(str::to_string),
    }
}

#[test]
fn claims_are_classified() {
    assert_eq!(classify_claim(None, "a", "h").unwrap_err(), TransportError::InvalidState);
    assert!(matches!(
        classify_claim(Some(stored("b", "h", "completed", Some("{}"))), "a", "h"),
        Ok(JournalClaim::Conflict)
    ));
    assert!(matches!(
        classify_claim(Some(stored("a", "other", "processing", None)), "a", "h"),
        Ok(JournalClaim::Conflict)
    ));
    assert!(matches!(
        classify_claim(Some(stored("a", "h", "processing", None)), "a", "h"),
        Ok(JournalClaim::Processing)
    ));
    match classify_claim(Some(stored("a", "h", "completed", Some("{\"ok\":1}"))), "a", "h") {
        Ok(JournalClaim::Replay(bytes)) => assert_eq!(bytes, b"{\"ok\":1}".to_vec()),
        other => panic!("unexpected {other:?}"),
    }
    assert_eq!(
        classify_claim(Some(stored("a", "h", "completed", None)), "a", "h").unwrap_err(),
        TransportError::InvalidState
    );
    assert_eq!(
        classify_claim(Some(stored("a", "h", "archived", Some("{}"))), "a", "h").unwrap_err(),
        TransportError::InvalidState
    );
}

#[test]
fn claim_actions() {
    assert!(matches!(claim_action(JournalClaim::New), DeliveryAction::Execute));
    assert!(matches!(claim_action(JournalClaim::Conflict), DeliveryAction::Terminate));
    assert!(matches!(
        claim_action(JournalClaim::Processing),
        DeliveryAction::RetryAfterMs(ms) if ms == PROCESSING_RETRY_MS
    ));
    match claim_action(JournalClaim::Replay(vec![1, 2])) {
        DeliveryAction::Publish(bytes) => assert_eq!(bytes, vec![1, 2]),
        other => panic!("unexpected {other:?}"),
    }
}

#[test]
fn queued_payload_text() {
    assert_eq!(request_text(b"{\"a\":1}").as_deref(), Some("{\"a\":1}"));
    assert_eq!(request_text(&[0xff, 0xfe]), None);
    assert_eq!(request_text(&vec![b'a'; MAX_TRANSPORT_BYTES + 1]), None);
    assert_eq!(completion_text(&[0xc3, 0x28]).unwrap_err(), TransportError::InvalidState);
    assert_eq!(completion_text("é".as_bytes()).unwrap(), "é");
    assert_eq!(check_completed_rows(1), Ok(()));
    assert_eq!(check_completed_rows(0), Err(TransportError::InvalidState));
    assert_eq!(check_completed_rows(2), Err(TransportError::InvalidState));
}

#[test]
fn results_publish_under_one_id_per_operation() {
    let fresh = result_publication("op-7", None, b"reply".to_vec());
    assert_eq!(fresh.subject, JETSTREAM_RESULT_SUBJECT);
    assert_eq!(fresh.payload, b"reply".to_vec());
    assert_eq!(fresh.message_id, "act-operation-result:op-7");
    let pending = result_publication(
        "op-7",
        Some(("act.results.other".to_string(), b"stored".to_vec())),
        b"reply".to_vec(),
    );
    assert_eq!(pending.subject, "act.results.other");
    assert_eq!(pending.payload, b"stored".to_vec());
    assert_eq!(pending.message_id, fresh.message_id);
}

#[test]
fn default_jetstream_configuration() {
    let config = JetStreamConfig::default();
    assert_eq!(config.request_subject, "act.operations.api.v1");
    assert_eq!(config.result_subject, "act.results.api.v1");
    assert_eq!(config.request_stream, "ACT_API_OPERATIONS");
    assert_eq!(config.result_stream, "ACT_API_OPERATION_RESULTS");
    assert_eq!(config.durable_consumer, "act-api-server-v1");
    assert_eq!(config.max_concurrency, 32);
}

#[test]
fn replies_carry_the_members_given() {
    let reply = OperationReply::ok(
        "op-2".to_string(),
        Json::Object(vec![JsonMember::new("configured".to_string(), Json::Bool(true))]),
    );
    assert!(matches!(reply.result, Some(Json::Object(ref ms)) if ms.len() == 1));
}

fn run(events: &[DeliveryEvent]) -> Vec<DeliveryCommand> {
    let mut phase = DeliveryPhase::start();
    let mut commands = Vec::new();
    for event in events {
        let step = phase.next(*event);
        phase = step.phase;
        commands.push(step.command);
    }
    commands
}

#[test]
fn new_claims_run_record_publish_confirm_mark_then_ack() {
    assert_eq!(
        run(&[
            DeliveryEvent::ClaimedExecute,
            DeliveryEvent::Executed,
            DeliveryEvent::Recorded,
            DeliveryEvent::Published,
            DeliveryEvent::Confirmed,
            DeliveryEvent::Marked,
            DeliveryEvent::Settled,
        ]),
        vec![
            DeliveryCommand::ExecuteOperation,
            DeliveryCommand::RecordReply,
            DeliveryCommand::PublishResult,
            DeliveryCommand::AwaitConfirmation,
            DeliveryCommand::MarkPublished,
            DeliveryCommand::Ack,
            DeliveryCommand::Stop,
        ]
    );
}

#[test]
fn replays_retries_and_refusals() {
    assert_eq!(
        run(&[DeliveryEvent::ClaimedReplay, DeliveryEvent::Published]),
        vec![DeliveryCommand::PublishResult, DeliveryCommand::AwaitConfirmation]
    );
    assert_eq!(
        run(&[DeliveryEvent::ClaimedRetry, DeliveryEvent::Settled]),
        vec![DeliveryCommand::NakAfterMs(PROCESSING_RETRY_MS), DeliveryCommand::Stop]
    );
    assert_eq!(run(&[DeliveryEvent::Refused]), vec![DeliveryCommand::Term]);
    assert_eq!(run(&[DeliveryEvent::ClaimedTerminate]), vec![DeliveryCommand::Term]);
    assert_eq!(
        run(&[DeliveryEvent::ClaimedExecute, DeliveryEvent::Marked]),
        vec![DeliveryCommand::ExecuteOperation, DeliveryCommand::Stop]
    );
    assert_eq!(claim_action(JournalClaim::Replay(vec![1])).event(), DeliveryEvent::ClaimedReplay);
}
