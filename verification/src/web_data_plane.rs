//! Bounded contracts for the four supported web-to-API data paths.
//!
//! Direct database access is a read-only exception. HTTP is the ordinary
//! request/response path. Stateful TCP is length-framed and requires mTLS.
//! NATS/JetStream work is durable, deduplicated, and acknowledged explicitly.
use vstd::prelude::*;

use crate::json::Json;
use crate::text::{
    byte_len, byte_len_capped, contains_control, ends_with, has_control, has_suffix,
    parse_unsigned, parsed_unsigned, same_text, trim, trimmed,
};
use crate::web_url::{parse_url, url_parse_result, UrlParts, UrlView};

verus! {

/// Largest serialized operation envelope.
pub const MAX_OPERATION_BYTES: usize = 16384;

/// Largest frame payload on the stateful TCP path.
pub const MAX_FRAME_BYTES: usize = 65536;

#[derive(Clone, Copy, Debug, PartialEq, Eq, Structural)]
pub enum WebApiMode {
    DirectReadOnlyDatabase,
    StatelessHttp,
    StatefulMtlsTcp,
    JetStreamAsync,
}

#[derive(Clone, Copy, Debug, PartialEq, Eq, Structural)]
pub enum DataOperation {
    Read,
    Write,
}

#[derive(Clone, Copy, Debug, PartialEq, Eq, Structural)]
pub enum DataPlaneError {
    UnsupportedVersion,
    InvalidIdentifier,
    PayloadTooLarge,
    DeadlineExpired,
    DirectDatabaseWrite,
    MissingDedupeKey,
    Serialization,
    UnsafeDirectDatabasePolicy,
    UnsafeHttpPolicy,
    UnsafeTcpPolicy,
    UnsafeJetStreamPolicy,
    InvalidFrame,
}

/// The operation every transport carries.
#[derive(Debug)]
pub struct OperationEnvelope {
    pub version: u8,
    pub operation_id: String,
    pub subject: String,
    pub resource: String,
    pub operation: DataOperation,
    pub payload: Json,
    pub deadline_unix_ms: u64,
    pub dedupe_key: Option<String>,
}

/// An identifier: non-empty, at most `maximum` bytes, without control
/// characters or surrounding whitespace.
pub open spec fn valid_identifier(value: Seq<char>, maximum: int) -> bool {
    &&& value.len() > 0
    &&& byte_len(value) <= maximum
    &&& !has_control(value)
    &&& trimmed(value) == value
}

pub fn validate_identifier(value: &str, maximum: usize) -> (r: Result<(), DataPlaneError>)
    requires
        maximum < usize::MAX,
    ensures
        r is Ok <==> valid_identifier(value@, maximum as int),
        r is Err ==> r == Err::<(), DataPlaneError>(DataPlaneError::InvalidIdentifier),
{
    let within = byte_len_capped(value, maximum + 1) <= maximum;
    if value.unicode_len() == 0 || !within || contains_control(value) || !same_text(
        trim(value).as_str(),
        value,
    ) {
        return Err(DataPlaneError::InvalidIdentifier);
    }
    Ok(())
}

/// The checks an envelope passes before any transport acts on it: version
/// 1, bounded identifiers, a serialized size within the limit, a deadline
/// still ahead of `now_ms`, no writes through the direct database path, and
/// a deduplication key on JetStream.
pub open spec fn envelope_check(
    env: OperationEnvelope,
    mode: WebApiMode,
    encoded_len: nat,
    now_ms: u64,
) -> Result<(), DataPlaneError> {
    if env.version != 1 {
        Err(DataPlaneError::UnsupportedVersion)
    } else if !valid_identifier(env.operation_id@, 128) || !valid_identifier(env.subject@, 256)
        || !valid_identifier(env.resource@, 96) {
        Err(DataPlaneError::InvalidIdentifier)
    } else if encoded_len > MAX_OPERATION_BYTES {
        Err(DataPlaneError::PayloadTooLarge)
    } else if env.deadline_unix_ms <= now_ms {
        Err(DataPlaneError::DeadlineExpired)
    } else if mode == WebApiMode::DirectReadOnlyDatabase && env.operation != DataOperation::Read {
        Err(DataPlaneError::DirectDatabaseWrite)
    } else if mode == WebApiMode::JetStreamAsync {
        match env.dedupe_key {
            None => Err(DataPlaneError::MissingDedupeKey),
            Some(k) => if valid_identifier(k@, 128) {
                Ok(())
            } else {
                Err(DataPlaneError::InvalidIdentifier)
            },
        }
    } else {
        Ok(())
    }
}

/// A reading of the system clock.
#[verifier::external_type_specification]
#[verifier::external_body]
pub struct ExSystemTime(std::time::SystemTime);

/// `SystemTime::now`: the current reading of the system clock. It depends
/// on the time, so the contract states nothing of it.
#[verifier::external_body]
fn system_now() -> (r: std::time::SystemTime) {
    std::time::SystemTime::now()
}

/// `SystemTime::duration_since(UNIX_EPOCH)`: how long after the epoch a
/// reading lies, or `None` when it lies before. A reading is opaque here, so
/// the contract states nothing of the result.
#[verifier::external_body]
fn since_epoch(t: &std::time::SystemTime) -> (r: Option<core::time::Duration>) {
    t.duration_since(std::time::UNIX_EPOCH).ok()
}

/// `Duration::as_millis`: the whole milliseconds of a duration. A duration
/// is opaque here, so the contract states nothing of the result.
#[verifier::external_body]
fn duration_millis(d: &core::time::Duration) -> (r: u128) {
    d.as_millis()
}

/// Milliseconds since the Unix epoch, or `None` when the clock is before
/// it. The value depends on the clock, so the contract states nothing of
/// it.
pub(crate) fn system_time_ms() -> (r: Option<u128>) {
    match since_epoch(&system_now()) {
        Some(d) => Some(duration_millis(&d)),
        None => None,
    }
}

/// A clock reading in milliseconds as `u64`: saturated at `u64::MAX`, and
/// zero when the clock was before the epoch.
pub open spec fn clock_ms(reading: Option<u128>) -> u64 {
    match reading {
        Some(ms) => if ms > u64::MAX as u128 {
            u64::MAX
        } else {
            ms as u64
        },
        None => 0,
    }
}

/// `clock_ms` of a clock reading.
pub fn millis_from_reading(reading: Option<u128>) -> (r: u64)
    ensures
        r == clock_ms(reading),
{
    match reading {
        Some(ms) => if ms > u64::MAX as u128 {
            u64::MAX
        } else {
            ms as u64
        },
        None => 0,
    }
}

/// The current time in milliseconds since the Unix epoch, saturated to
/// `u64`; zero when the clock is before the epoch. It is `clock_ms` of the
/// clock's reading, which depends on the time alone, so every `u64` is a
/// possible result and the contract states none.
pub fn unix_time_ms() -> (r: u64) {
    millis_from_reading(system_time_ms())
}

impl OperationEnvelope {
    /// Checks the envelope for `mode` at time `now_ms`; `encoded_len` is the
    /// size of its JSON serialization.
    pub fn validate_at(&self, mode: WebApiMode, encoded_len: usize, now_ms: u64) -> (r: Result<
        (),
        DataPlaneError,
    >)
        ensures
            r == envelope_check(*self, mode, encoded_len as nat, now_ms),
    {
        if self.version != 1 {
            return Err(DataPlaneError::UnsupportedVersion);
        }
        match validate_identifier(self.operation_id.as_str(), 128) {
            Ok(()) => {},
            Err(e) => return Err(e),
        }
        match validate_identifier(self.subject.as_str(), 256) {
            Ok(()) => {},
            Err(e) => return Err(e),
        }
        match validate_identifier(self.resource.as_str(), 96) {
            Ok(()) => {},
            Err(e) => return Err(e),
        }
        if encoded_len > MAX_OPERATION_BYTES {
            return Err(DataPlaneError::PayloadTooLarge);
        }
        if self.deadline_unix_ms <= now_ms {
            return Err(DataPlaneError::DeadlineExpired);
        }
        if mode == WebApiMode::DirectReadOnlyDatabase && self.operation != DataOperation::Read {
            return Err(DataPlaneError::DirectDatabaseWrite);
        }
        if mode == WebApiMode::JetStreamAsync {
            match &self.dedupe_key {
                None => return Err(DataPlaneError::MissingDedupeKey),
                Some(k) => match validate_identifier(k.as_str(), 128) {
                    Ok(()) => {},
                    Err(e) => return Err(e),
                },
            }
        }
        Ok(())
    }

    /// Checks the envelope for `mode` now; `encoded_len` is the size of its
    /// JSON serialization.
    pub fn validate_for(&self, mode: WebApiMode, encoded_len: usize) -> (r: Result<(), DataPlaneError>)
        ensures
            exists|now_ms: u64| r == envelope_check(*self, mode, encoded_len as nat, now_ms),
    {
        let now = unix_time_ms();
        self.validate_at(mode, encoded_len, now)
    }
}

/// The direct database path is read-only: no write passes, whatever the
/// rest of the envelope and the time.
pub proof fn lemma_direct_database_is_read_only(
    env: OperationEnvelope,
    encoded_len: nat,
    now_ms: u64,
)
    requires
        env.operation == DataOperation::Write,
    ensures
        envelope_check(env, WebApiMode::DirectReadOnlyDatabase, encoded_len, now_ms) is Err,
{
}

/// Every accepted envelope, whatever the mode, is version 1 and carries an
/// operation id of at most 128 bytes, a subject of at most 256 bytes and a
/// resource of at most 96 bytes, each non-empty, without control characters
/// and without surrounding whitespace; it fits the size limit and its
/// deadline lies after `now_ms`.
pub proof fn lemma_accepted_envelope_identifiers(
    env: OperationEnvelope,
    mode: WebApiMode,
    encoded_len: nat,
    now_ms: u64,
)
    requires
        envelope_check(env, mode, encoded_len, now_ms) is Ok,
    ensures
        env.version == 1,
        env.operation_id@.len() > 0 && byte_len(env.operation_id@) <= 128 && !has_control(
            env.operation_id@,
        ) && trimmed(env.operation_id@) == env.operation_id@,
        env.subject@.len() > 0 && byte_len(env.subject@) <= 256 && !has_control(env.subject@)
            && trimmed(env.subject@) == env.subject@,
        env.resource@.len() > 0 && byte_len(env.resource@) <= 96 && !has_control(env.resource@)
            && trimmed(env.resource@) == env.resource@,
        encoded_len <= MAX_OPERATION_BYTES,
        env.deadline_unix_ms > now_ms,
{
}

/// An accepted direct-database policy runs in a read-only transaction under
/// a `_web_ro` role, with a statement deadline of 1..=5000 ms and a row cap
/// of 1..=1000; a policy without a read-only transaction is never accepted.
pub proof fn lemma_direct_policy_is_read_only(p: DirectDatabasePolicy)
    ensures
        direct_policy_ok(p) ==> p.read_only_transaction && ends_with(p.role_name@, "_web_ro"@) && 1
            <= p.statement_timeout_ms <= 5000 && 1 <= p.row_limit <= 1000,
        !p.read_only_transaction ==> !direct_policy_ok(p),
{
}

/// JetStream only carries envelopes with a deduplication key.
pub proof fn lemma_jetstream_needs_dedupe_key(env: OperationEnvelope, encoded_len: nat, now_ms: u64)
    requires
        envelope_check(env, WebApiMode::JetStreamAsync, encoded_len, now_ms) is Ok,
    ensures
        env.dedupe_key matches Some(k) && valid_identifier(k@, 128),
{
}

#[derive(Clone, Debug)]
pub struct DirectDatabasePolicy {
    pub role_name: String,
    pub read_only_transaction: bool,
    pub statement_timeout_ms: u64,
    pub row_limit: u32,
}

/// A read-only role (`..._web_ro`) in a read-only transaction, with a
/// statement deadline of 1..=5000 ms and a row cap of 1..=1000.
pub open spec fn direct_policy_ok(p: DirectDatabasePolicy) -> bool {
    &&& ends_with(p.role_name@, "_web_ro"@)
    &&& p.read_only_transaction
    &&& 1 <= p.statement_timeout_ms <= 5000
    &&& 1 <= p.row_limit <= 1000
}

/// The only query the web tier may run directly: the caller's own channels.
pub const CHANNEL_SELECT_SQL: &'static str = "SELECT channel_id, handle, title FROM youtube_channels WHERE owner_subject = $1 ORDER BY channel_id LIMIT $2";

/// A parameterized Postgres query: `$1` is the actor, `$2` the row limit.
#[derive(Clone, Debug)]
pub struct ChannelQuery {
    pub sql: String,
    pub actor: String,
    pub row_limit: i64,
}

impl DirectDatabasePolicy {
    pub fn validate(&self) -> (r: Result<(), DataPlaneError>)
        ensures
            r is Ok <==> direct_policy_ok(*self),
            r is Err ==> r == Err::<(), DataPlaneError>(DataPlaneError::UnsafeDirectDatabasePolicy),
    {
        if !has_suffix(self.role_name.as_str(), "_web_ro") || !self.read_only_transaction {
            return Err(DataPlaneError::UnsafeDirectDatabasePolicy);
        }
        if !(1 <= self.statement_timeout_ms && self.statement_timeout_ms <= 5000) || !(1
            <= self.row_limit && self.row_limit <= 1000) {
            return Err(DataPlaneError::UnsafeDirectDatabasePolicy);
        }
        Ok(())
    }

    /// Builds the only direct database projection exposed to the web tier.
    /// The query is parameterized and actor-scoped; the runtime must also
    /// begin a read-only transaction using the separately provisioned
    /// `_web_ro` role.
    pub fn youtube_channel_select(&self, actor: &str) -> (r: Result<ChannelQuery, DataPlaneError>)
        ensures
            match r {
                Ok(q) => direct_policy_ok(*self) && valid_identifier(actor@, 256) && q.sql@
                    == CHANNEL_SELECT_SQL@ && q.actor@ == actor@ && q.row_limit == self.row_limit,
                Err(e) => (!direct_policy_ok(*self) && e == DataPlaneError::UnsafeDirectDatabasePolicy)
                    || (direct_policy_ok(*self) && !valid_identifier(actor@, 256) && e
                    == DataPlaneError::InvalidIdentifier),
            },
    {
        match self.validate() {
            Ok(()) => {},
            Err(e) => return Err(e),
        }
        match validate_identifier(actor, 256) {
            Ok(()) => {},
            Err(e) => return Err(e),
        }
        Ok(
            ChannelQuery {
                sql: String::from_str(CHANNEL_SELECT_SQL),
                actor: String::from_str(actor),
                row_limit: self.row_limit as i64,
            },
        )
    }
}

#[derive(Clone, Debug)]
pub struct StatelessHttpPolicy {
    pub base_url: String,
    pub service_credential_ref: String,
    pub connect_timeout_ms: u64,
    pub request_timeout_ms: u64,
    pub max_response_bytes: usize,
    pub redirects_enabled: bool,
}

/// HTTPS, or plain HTTP to an in-cluster service address; no credentials,
/// query or fragment in the URL.
pub open spec fn http_url_ok(u: UrlView) -> bool {
    let cluster_http = u.scheme == "http"@ && (u.host matches Some(h) && ends_with(
        h,
        ".svc.cluster.local"@,
    ));
    &&& (u.scheme == "https"@ || cluster_http)
    &&& u.username.len() == 0
    &&& u.password is None
    &&& u.query is None
    &&& u.fragment is None
}

/// A safe HTTP policy: its URL is safe, it names a service credential,
/// follows no redirects, and bounds connection time (1..=2000 ms), request
/// time (1..=10000 ms) and response size (1 byte..=1 MiB).
pub open spec fn http_policy_ok(p: StatelessHttpPolicy) -> bool {
    &&& url_parse_result(p.base_url@) matches Some(u) && http_url_ok(u)
    &&& trimmed(p.service_credential_ref@).len() > 0
    &&& !p.redirects_enabled
    &&& 1 <= p.connect_timeout_ms <= 2000
    &&& 1 <= p.request_timeout_ms <= 10000
    &&& 1 <= p.max_response_bytes <= 1048576
}

/// Checks a parsed policy URL: `http_url_ok`.
pub fn http_url_check(url: &UrlParts) -> (r: bool)
    ensures
        r == http_url_ok(url@),
{
    let cluster_http = same_text(url.scheme.as_str(), "http") && match &url.host {
        Some(h) => has_suffix(h.as_str(), ".svc.cluster.local"),
        None => false,
    };
    (same_text(url.scheme.as_str(), "https") || cluster_http) && url.username.as_str().unicode_len()
        == 0 && url.password.is_none() && url.query.is_none() && url.fragment.is_none()
}

impl StatelessHttpPolicy {
    pub fn validate(&self) -> (r: Result<(), DataPlaneError>)
        ensures
            r is Ok <==> http_policy_ok(*self),
            r is Err ==> r == Err::<(), DataPlaneError>(DataPlaneError::UnsafeHttpPolicy),
    {
        let url = match parse_url(self.base_url.as_str()) {
            Some(u) => u,
            None => return Err(DataPlaneError::UnsafeHttpPolicy),
        };
        if !http_url_check(&url) || trim(self.service_credential_ref.as_str()).as_str().unicode_len()
            == 0 || self.redirects_enabled || !(1 <= self.connect_timeout_ms
            && self.connect_timeout_ms <= 2000) || !(1 <= self.request_timeout_ms
            && self.request_timeout_ms <= 10000) || !(1 <= self.max_response_bytes
            && self.max_response_bytes <= 1048576) {
            return Err(DataPlaneError::UnsafeHttpPolicy);
        }
        Ok(())
    }
}

/// The index of the last `:` in `s`, if any.
pub open spec fn last_colon(s: Seq<char>, j: int) -> int
    decreases j,
{
    if j <= 0 || j > s.len() {
        -1
    } else if s[j - 1] == ':' {
        j - 1
    } else {
        last_colon(s, j - 1)
    }
}

/// `host:port` split at the last `:` (`str::rsplit_once(':')`), with a
/// non-empty host and a port that parses as `u16`.
pub open spec fn host_port_ok(s: Seq<char>) -> bool {
    let i = last_colon(s, s.len() as int);
    &&& i > 0
    &&& parsed_unsigned(s.subrange(i + 1, s.len() as int), 65535) is Some
}

/// Whether `value` has the form `host:port`.
pub fn valid_host_port(value: &str) -> (r: bool)
    ensures
        r == host_port_ok(value@),
{
    let n = value.unicode_len();
    let mut j: usize = n;
    while j > 0 && value.get_char(j - 1) != ':'
        invariant
            n == value@.len(),
            j <= n,
            last_colon(value@, j as int) == last_colon(value@, n as int),
        decreases j,
    {
        j = j - 1;
    }
    if j == 0 {
        return false;
    }
    let i = j - 1;
    if i == 0 {
        return false;
    }
    parse_unsigned(value.substring_char(i + 1, n), 65535).is_some()
}

#[derive(Clone, Debug)]
pub struct StatefulMtlsTcpPolicy {
    pub address: String,
    pub server_name: String,
    pub ca_bundle_ref: String,
    pub client_certificate_ref: String,
    pub client_private_key_ref: String,
    pub mutual_tls_required: bool,
    pub connect_timeout_ms: u64,
    pub operation_timeout_ms: u64,
    pub max_frame_bytes: usize,
}

/// A safe TCP policy: a `host:port` address (which every IP socket address
/// such as `10.0.0.1:7443` or `[::1]:7443` also is), a server name, the three
/// certificate references, mutual TLS, and bounded connection time
/// (1..=2000 ms), operation time (1..=30000 ms) and frame size.
pub open spec fn tcp_policy_ok(p: StatefulMtlsTcpPolicy) -> bool {
    &&& host_port_ok(p.address@)
    &&& trimmed(p.server_name@).len() > 0
    &&& trimmed(p.ca_bundle_ref@).len() > 0
    &&& trimmed(p.client_certificate_ref@).len() > 0
    &&& trimmed(p.client_private_key_ref@).len() > 0
    &&& p.mutual_tls_required
    &&& 1 <= p.connect_timeout_ms <= 2000
    &&& 1 <= p.operation_timeout_ms <= 30000
    &&& 1 <= p.max_frame_bytes <= MAX_FRAME_BYTES
}

fn blank(s: &String) -> (r: bool)
    ensures
        r == (trimmed(s@).len() == 0),
{
    trim(s.as_str()).as_str().unicode_len() == 0
}

impl StatefulMtlsTcpPolicy {
    pub fn validate(&self) -> (r: Result<(), DataPlaneError>)
        ensures
            r is Ok <==> tcp_policy_ok(*self),
            r is Err ==> r == Err::<(), DataPlaneError>(DataPlaneError::UnsafeTcpPolicy),
    {
        if !valid_host_port(self.address.as_str()) || blank(&self.server_name) || blank(
            &self.ca_bundle_ref,
        ) || blank(&self.client_certificate_ref) || blank(&self.client_private_key_ref)
            || !self.mutual_tls_required || !(1 <= self.connect_timeout_ms
            && self.connect_timeout_ms <= 2000) || !(1 <= self.operation_timeout_ms
            && self.operation_timeout_ms <= 30000) || !(1 <= self.max_frame_bytes
            && self.max_frame_bytes <= MAX_FRAME_BYTES) {
            return Err(DataPlaneError::UnsafeTcpPolicy);
        }
        Ok(())
    }
}

#[derive(Clone, Debug)]
pub struct JetStreamPolicy {
    pub request_subject: String,
    pub result_subject_prefix: String,
    pub durable_consumer: String,
    pub max_deliveries: u32,
    pub ack_wait_ms: u64,
    pub publish_timeout_ms: u64,
    pub explicit_ack: bool,
}

/// A safe JetStream policy: subjects under `act.operations.` and
/// `act.results.`, a named durable consumer, bounded redelivery (1..=20),
/// acknowledgement wait (1..=120 s) and publish deadline (1..=10000 ms), and
/// explicit acknowledgements.
pub open spec fn jetstream_policy_ok(p: JetStreamPolicy) -> bool {
    &&& crate::text::starts_with(p.request_subject@, "act.operations."@)
    &&& crate::text::starts_with(p.result_subject_prefix@, "act.results."@)
    &&& trimmed(p.durable_consumer@).len() > 0
    &&& 1 <= p.max_deliveries <= 20
    &&& 1000 <= p.ack_wait_ms <= 120000
    &&& 1 <= p.publish_timeout_ms <= 10000
    &&& p.explicit_ack
}

impl JetStreamPolicy {
    pub fn validate(&self) -> (r: Result<(), DataPlaneError>)
        ensures
            r is Ok <==> jetstream_policy_ok(*self),
            r is Err ==> r == Err::<(), DataPlaneError>(DataPlaneError::UnsafeJetStreamPolicy),
    {
        if !crate::text::has_prefix(self.request_subject.as_str(), "act.operations.")
            || !crate::text::has_prefix(self.result_subject_prefix.as_str(), "act.results.")
            || blank(&self.durable_consumer) || !(1 <= self.max_deliveries && self.max_deliveries
            <= 20) || !(1000 <= self.ack_wait_ms && self.ack_wait_ms <= 120000) || !(1
            <= self.publish_timeout_ms && self.publish_timeout_ms <= 10000) || !self.explicit_ack {
            return Err(DataPlaneError::UnsafeJetStreamPolicy);
        }
        Ok(())
    }
}

/// An accepted HTTP policy follows no redirects and never sends its
/// credential in cleartext outside the cluster: its URL is HTTPS, or HTTP
/// to a `.svc.cluster.local` host.
pub proof fn lemma_http_policy_rejects_redirects_and_public_cleartext(p: StatelessHttpPolicy)
    requires
        http_policy_ok(p),
    ensures
        !p.redirects_enabled,
        url_parse_result(p.base_url@) matches Some(u) && (u.scheme == "https"@ || (u.scheme
            == "http"@ && (u.host matches Some(h) && ends_with(h, ".svc.cluster.local"@)))),
{
}

/// An accepted TCP policy requires mutual TLS and bounds its frames by
/// `MAX_FRAME_BYTES`.
pub proof fn lemma_tcp_policy_requires_mtls_and_bounded_frames(p: StatefulMtlsTcpPolicy)
    requires
        tcp_policy_ok(p),
    ensures
        p.mutual_tls_required,
        1 <= p.max_frame_bytes <= MAX_FRAME_BYTES,
{
}

/// An accepted JetStream policy acknowledges explicitly and bounds
/// redelivery.
pub proof fn lemma_jetstream_policy_acks_explicitly(p: JetStreamPolicy)
    requires
        jetstream_policy_ok(p),
    ensures
        p.explicit_ack,
        1 <= p.max_deliveries <= 20,
{
}

/// The four-byte big-endian value of the first four bytes of `b`.
pub open spec fn be32(b: Seq<u8>) -> int {
    b[0] as int * 16777216 + b[1] as int * 65536 + b[2] as int * 256 + b[3] as int
}

/// The frame for a payload: its length as four big-endian bytes, then the
/// payload.
pub open spec fn framed(payload: Seq<u8>) -> Seq<u8> {
    let n = payload.len() as int;
    seq![(n / 16777216) as u8, ((n / 65536) % 256) as u8, ((n / 256) % 256) as u8, (n % 256) as u8]
        + payload
}

/// What a frame holds: a four-byte big-endian length within `maximum`
/// (itself at most `MAX_FRAME_BYTES`) followed by exactly that many bytes.
pub open spec fn unframed(frame: Seq<u8>, maximum: int) -> Result<Seq<u8>, DataPlaneError> {
    if frame.len() < 4 {
        Err(DataPlaneError::InvalidFrame)
    } else if be32(frame) > maximum || maximum > MAX_FRAME_BYTES || frame.len() != be32(frame)
        + 4 {
        Err(DataPlaneError::InvalidFrame)
    } else {
        Ok(frame.subrange(4, frame.len() as int))
    }
}

/// Frames a serialized envelope for the stateful TCP path.
pub fn encode_frame(payload: &[u8], maximum: usize) -> (r: Result<Vec<u8>, DataPlaneError>)
    ensures
        match r {
            Ok(frame) => payload@.len() <= maximum && maximum <= MAX_FRAME_BYTES && frame@ == framed(
                payload@,
            ),
            Err(e) => (payload@.len() > maximum || maximum > MAX_FRAME_BYTES) && e
                == DataPlaneError::PayloadTooLarge,
        },
{
    let len = payload.len();
    if len > maximum || maximum > MAX_FRAME_BYTES {
        return Err(DataPlaneError::PayloadTooLarge);
    }
    let mut frame: Vec<u8> = Vec::new();
    frame.push((len / 16777216) as u8);
    frame.push(((len / 65536) % 256) as u8);
    frame.push(((len / 256) % 256) as u8);
    frame.push((len % 256) as u8);
    let mut i: usize = 0;
    while i < len
        invariant
            len == payload@.len(),
            i <= len,
            frame@ == framed(payload@).subrange(0, 4 + i),
        decreases len - i,
    {
        frame.push(payload[i]);
        assert(framed(payload@).subrange(0, 4 + i + 1) =~= framed(payload@).subrange(0, 4 + i).push(
            payload@[i as int],
        ));
        i = i + 1;
    }
    assert(framed(payload@).subrange(0, 4 + len) =~= framed(payload@));
    Ok(frame)
}

/// The payload of a frame from the stateful TCP path.
pub fn decode_frame(frame: &[u8], maximum: usize) -> (r: Result<Vec<u8>, DataPlaneError>)
    ensures
        match r {
            Ok(p) => unframed(frame@, maximum as int) == Ok::<Seq<u8>, DataPlaneError>(p@),
            Err(e) => unframed(frame@, maximum as int) == Err::<Seq<u8>, DataPlaneError>(e),
        },
{
    let n = frame.len();
    if n < 4 {
        return Err(DataPlaneError::InvalidFrame);
    }
    let length: u64 = frame[0] as u64 * 16777216 + frame[1] as u64 * 65536 + frame[2] as u64 * 256
        + frame[3] as u64;
    if length > maximum as u64 || maximum > MAX_FRAME_BYTES || n as u64 != length + 4 {
        return Err(DataPlaneError::InvalidFrame);
    }
    let mut payload: Vec<u8> = Vec::new();
    let mut i: usize = 4;
    while i < n
        invariant
            n == frame@.len(),
            4 <= i <= n,
            payload@ == frame@.subrange(4, i as int),
        decreases n - i,
    {
        payload.push(frame[i]);
        assert(frame@.subrange(4, i + 1) =~= frame@.subrange(4, i as int).push(frame@[i as int]));
        i = i + 1;
    }
    Ok(payload)
}

/// Decoding a frame gives back exactly the payload that was framed.
pub proof fn lemma_frame_round_trip(payload: Seq<u8>, maximum: int)
    requires
        payload.len() <= maximum,
        maximum <= MAX_FRAME_BYTES,
    ensures
        unframed(framed(payload), maximum) == Ok::<Seq<u8>, DataPlaneError>(payload),
{
    let n = payload.len() as int;
    let f = framed(payload);
    assert(f[0] == (n / 16777216) as u8);
    assert(be32(f) == n) by (nonlinear_arith)
        requires
            0 <= n <= 65536,
            f[0] == (n / 16777216) as u8,
            f[1] == ((n / 65536) % 256) as u8,
            f[2] == ((n / 256) % 256) as u8,
            f[3] == (n % 256) as u8,
            be32(f) == f[0] as int * 16777216 + f[1] as int * 65536 + f[2] as int * 256
                + f[3] as int,
    ;
    assert(f.subrange(4, f.len() as int) =~= payload);
}

/// A frame with anything after its payload is refused.
pub proof fn lemma_trailing_bytes_rejected(payload: Seq<u8>, extra: Seq<u8>, maximum: int)
    requires
        payload.len() <= maximum,
        maximum <= MAX_FRAME_BYTES,
        extra.len() > 0,
    ensures
        unframed(framed(payload) + extra, maximum) == Err::<Seq<u8>, DataPlaneError>(
            DataPlaneError::InvalidFrame,
        ),
{
    lemma_frame_round_trip(payload, maximum);
    let f = framed(payload);
    let g = f + extra;
    assert(g[0] == f[0] && g[1] == f[1] && g[2] == f[2] && g[3] == f[3]);
}

} // verus!
