use act_api_server::json::{Json, JsonMember};
use act_api_server::web_url::UrlParts;
use act_api_server::web_data_plane::{
    decode_frame, encode_frame, http_url_check, millis_from_reading, unix_time_ms, valid_host_port, validate_identifier, DataOperation,
    DataPlaneError, DirectDatabasePolicy, JetStreamPolicy, OperationEnvelope, StatefulMtlsTcpPolicy,
    StatelessHttpPolicy, WebApiMode, CHANNEL_SELECT_SQL, MAX_FRAME_BYTES, MAX_OPERATION_BYTES,
};

fn limit_payload() -> Json {
    Json::Object(vec![JsonMember::new("limit".to_string(), Json::Number("10".to_string()))])
}

fn request(operation: DataOperation) -> OperationEnvelope {
    OperationEnvelope {
        version: 1,
        operation_id: "op-018f".to_string(),
        subject: "shared-user-1".to_string(),
        resource: "youtube_channels".to_string(),
        operation,
        payload: limit_payload(),
        deadline_unix_ms: unix_time_ms() + 30_000,
        dedupe_key: Some("op-018f".to_string()),
    }
}

/// The envelope as JSON text, with the field names the transports use.
fn encoded(envelope: &OperationEnvelope) -> Vec<u8> {
    let mut payload = serde_json::Map::new();
    payload.insert("limit".to_string(), serde_json::Value::from(10));
    let mut object = serde_json::Map::new();
    object.insert("version".to_string(), serde_json::Value::from(envelope.version));
    object.insert("operationId".to_string(), serde_json::Value::from(envelope.operation_id.clone()));
    object.insert("subject".to_string(), serde_json::Value::from(envelope.subject.clone()));
    object.insert("resource".to_string(), serde_json::Value::from(envelope.resource.clone()));
    let operation = match envelope.operation {
        DataOperation::Read => "read",
        DataOperation::Write => "write",
    };
    object.insert("operation".to_string(), serde_json::Value::from(operation));
    object.insert("payload".to_string(), serde_json::Value::Object(payload));
    object.insert("deadlineUnixMs".to_string(), serde_json::Value::from(envelope.deadline_unix_ms));
    object.insert(
        "dedupeKey".to_string(),
        serde_json::Value::from(envelope.dedupe_key.clone()),
    );
    serde_json::to_vec(&serde_json::Value::Object(object)).expect("serializable")
}

#[test]
fn direct_database_is_read_only_and_actor_scoped() {
    let write = request(DataOperation::Write);
    assert_eq!(
        write.validate_for(WebApiMode::DirectReadOnlyDatabase, encoded(&write).len()),
        Err(DataPlaneError::DirectDatabaseWrite)
    );
    let statement = DirectDatabasePolicy {
        role_name: "act_web_ro".to_string(),
        read_only_transaction: true,
        statement_timeout_ms: 2_000,
        row_limit: 100,
    }
    .youtube_channel_select("shared-user-1")
    .unwrap();
    assert!(statement.sql.starts_with("SELECT "));
    assert!(statement.sql.contains("owner_subject = $1"));
}

#[test]
fn stateless_http_rejects_redirects_and_public_cleartext() {
    let mut policy = StatelessHttpPolicy {
        base_url: "https://act-api.internal".to_string(),
        service_credential_ref: "secret/act-web-api".to_string(),
        connect_timeout_ms: 500,
        request_timeout_ms: 4_000,
        max_response_bytes: 64 * 1024,
        redirects_enabled: false,
    };
    assert_eq!(policy.validate(), Ok(()));
    policy.base_url = "http://public.example.test".to_string();
    assert_eq!(policy.validate(), Err(DataPlaneError::UnsafeHttpPolicy));
}

#[test]
fn stateful_tcp_requires_mtls_and_bounded_frames() {
    let mut policy = StatefulMtlsTcpPolicy {
        address: "act-api.internal:7443".to_string(),
        server_name: "act-api.internal".to_string(),
        ca_bundle_ref: "secret/api-ca".to_string(),
        client_certificate_ref: "secret/web-cert".to_string(),
        client_private_key_ref: "secret/web-key".to_string(),
        mutual_tls_required: true,
        connect_timeout_ms: 500,
        operation_timeout_ms: 5_000,
        max_frame_bytes: MAX_FRAME_BYTES,
    };
    assert_eq!(policy.validate(), Ok(()));
    policy.mutual_tls_required = false;
    assert_eq!(policy.validate(), Err(DataPlaneError::UnsafeTcpPolicy));
}

#[test]
fn framed_round_trip_is_exact_and_rejects_trailing_bytes() {
    let envelope = encoded(&request(DataOperation::Read));
    let frame = encode_frame(&envelope, MAX_FRAME_BYTES).unwrap();
    assert_eq!(decode_frame(&frame, MAX_FRAME_BYTES).unwrap(), envelope);
    let mut invalid = frame;
    invalid.push(0);
    assert_eq!(
        decode_frame(&invalid, MAX_FRAME_BYTES),
        Err(DataPlaneError::InvalidFrame)
    );
}

#[test]
fn jetstream_requires_dedupe_and_explicit_ack() {
    let mut envelope = request(DataOperation::Write);
    envelope.dedupe_key = None;
    let len = encoded(&envelope).len();
    assert_eq!(
        envelope.validate_for(WebApiMode::JetStreamAsync, len),
        Err(DataPlaneError::MissingDedupeKey)
    );
    let policy = JetStreamPolicy {
        request_subject: "act.operations.youtube".to_string(),
        result_subject_prefix: "act.results.youtube".to_string(),
        durable_consumer: "act-api-youtube-v1".to_string(),
        max_deliveries: 5,
        ack_wait_ms: 30_000,
        publish_timeout_ms: 2_000,
        explicit_ack: true,
    };
    assert_eq!(policy.validate(), Ok(()));
}

#[test]
fn frame_layout_is_a_big_endian_length_prefix() {
    let frame = encode_frame(b"abc", MAX_FRAME_BYTES).unwrap();
    assert_eq!(frame, vec![0, 0, 0, 3, b'a', b'b', b'c']);
    assert_eq!(encode_frame(b"abcd", 3), Err(DataPlaneError::PayloadTooLarge));
    assert_eq!(decode_frame(&[0, 0, 0], MAX_FRAME_BYTES), Err(DataPlaneError::InvalidFrame));
    assert_eq!(decode_frame(&[0, 0, 0, 4, 1], MAX_FRAME_BYTES), Err(DataPlaneError::InvalidFrame));
}

#[test]
fn envelope_checks_in_order() {
    let mut envelope = request(DataOperation::Read);
    let len = encoded(&envelope).len();
    assert_eq!(envelope.validate_for(WebApiMode::StatelessHttp, len), Ok(()));
    assert_eq!(
        envelope.validate_for(WebApiMode::StatelessHttp, MAX_OPERATION_BYTES + 1),
        Err(DataPlaneError::PayloadTooLarge)
    );
    assert_eq!(
        envelope.validate_at(WebApiMode::StatelessHttp, len, envelope.deadline_unix_ms),
        Err(DataPlaneError::DeadlineExpired)
    );
    envelope.subject = " padded".to_string();
    assert_eq!(
        envelope.validate_for(WebApiMode::StatelessHttp, len),
        Err(DataPlaneError::InvalidIdentifier)
    );
    envelope.version = 2;
    assert_eq!(
        envelope.validate_for(WebApiMode::StatelessHttp, len),
        Err(DataPlaneError::UnsupportedVersion)
    );
}

#[test]
fn identifiers_and_addresses() {
    assert_eq!(validate_identifier("op-1", 128), Ok(()));
    assert_eq!(validate_identifier("", 128), Err(DataPlaneError::InvalidIdentifier));
    assert_eq!(validate_identifier("a\u{7}b", 128), Err(DataPlaneError::InvalidIdentifier));
    assert_eq!(validate_identifier("abcd", 3), Err(DataPlaneError::InvalidIdentifier));
    assert!(valid_host_port("act-api.internal:7443"));
    assert!(valid_host_port("[::1]:7443"));
    assert!(!valid_host_port("act-api.internal"));
    assert!(!valid_host_port("act-api.internal:"));
    assert!(!valid_host_port(":7443"));
}

#[test]
fn direct_policy_bounds() {
    let mut policy = DirectDatabasePolicy {
        role_name: "act_web".to_string(),
        read_only_transaction: true,
        statement_timeout_ms: 2_000,
        row_limit: 100,
    };
    assert_eq!(policy.validate(), Err(DataPlaneError::UnsafeDirectDatabasePolicy));
    policy.role_name = "act_web_ro".to_string();
    policy.row_limit = 1_001;
    assert_eq!(policy.validate(), Err(DataPlaneError::UnsafeDirectDatabasePolicy));
    policy.row_limit = 7;
    let query = policy.youtube_channel_select("user-2").unwrap();
    assert_eq!(query.sql, CHANNEL_SELECT_SQL);
    assert_eq!(query.actor, "user-2");
    assert_eq!(query.row_limit, 7);
    assert!(matches!(
        policy.youtube_channel_select(" "),
        Err(DataPlaneError::InvalidIdentifier)
    ));
}

#[test]
fn jetstream_policy_bounds() {
    let mut policy = JetStreamPolicy {
        request_subject: "act.operations.youtube".to_string(),
        result_subject_prefix: "act.results.youtube".to_string(),
        durable_consumer: "act-api-youtube-v1".to_string(),
        max_deliveries: 5,
        ack_wait_ms: 30_000,
        publish_timeout_ms: 2_000,
        explicit_ack: false,
    };
    assert_eq!(policy.validate(), Err(DataPlaneError::UnsafeJetStreamPolicy));
    policy.explicit_ack = true;
    policy.request_subject = "other.subject".to_string();
    assert_eq!(policy.validate(), Err(DataPlaneError::UnsafeJetStreamPolicy));
}

#[test]
fn clock_readings_saturate() {
    assert_eq!(millis_from_reading(None), 0);
    assert_eq!(millis_from_reading(Some(1_700_000_000_123)), 1_700_000_000_123);
    assert_eq!(millis_from_reading(Some(u128::from(u64::MAX) + 5)), u64::MAX);
    assert!(unix_time_ms() > 1_600_000_000_000);
}

fn parts(scheme: &str, host: &str, username: &str, query: Option<&str>) -> UrlParts {
    UrlParts {
        serialization: format!("{scheme}://{host}/"),
        scheme: scheme.to_string(),
        username: username.to_string(),
        password: None,
        host: Some(host.to_string()),
        path: "/".to_string(),
        query: query.map(str::to_string),
        fragment: None,
    }
}

#[test]
fn policy_urls_are_https_or_cluster_http_without_secrets() {
    assert!(http_url_check(&parts("https", "act-api.internal", "", None)));
    assert!(http_url_check(&parts("http", "act-api.default.svc.cluster.local", "", None)));
    assert!(!http_url_check(&parts("http", "public.example.test", "", None)));
    assert!(!http_url_check(&parts("https", "act-api.internal", "user", None)));
    assert!(!http_url_check(&parts("https", "act-api.internal", "", Some("token=1"))));
}
