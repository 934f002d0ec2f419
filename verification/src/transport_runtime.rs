//! Decisions of the bounded mTLS/TCP and durable JetStream transports.
//!
//! These transports carry the same strict operation envelope as HTTP. mTLS
//! authenticates the peer connection, but every frame still carries a user
//! bearer that is verified by Shared Auth and bound to `envelope.subject`.
//! JetStream processing uses a database inbox/status/outbox journal so broker
//! redelivery is idempotent and result publication can resume after a crash.
use vstd::prelude::*;

use sha2::Digest;

use crate::json::Json;
use crate::text::{
    byte_len, byte_len_capped, contains_whitespace, has_prefix, has_whitespace, same_text,
    starts_with, trim, trimmed,
};
use crate::web_data_plane::{envelope_check, OperationEnvelope, WebApiMode};

verus! {

pub const JETSTREAM_REQUEST_SUBJECT: &'static str = "act.operations.api.v1";

pub const JETSTREAM_RESULT_SUBJECT: &'static str = "act.results.api.v1";

pub const JETSTREAM_REQUEST_STREAM: &'static str = "ACT_API_OPERATIONS";

pub const JETSTREAM_RESULT_STREAM: &'static str = "ACT_API_OPERATION_RESULTS";

pub const JETSTREAM_DURABLE_CONSUMER: &'static str = "act-api-server-v1";

pub const MAX_AUTHORIZATION_BYTES: usize = 16384;

pub const MAX_TRANSPORT_BYTES: usize = 65536;

pub const MAX_TCP_CONNECTIONS: usize = 128;

pub const MAX_CONCURRENT_OPERATIONS: usize = 32;

/// Deadline of one operation, of a TLS handshake and of a publication.
pub const OPERATION_TIMEOUT_MS: u64 = 10000;

/// Delay before a message whose operation is still being processed is
/// delivered again.
pub const PROCESSING_RETRY_MS: u64 = 1000;

/// How long both JetStream streams keep messages: seven days.
pub const STREAM_MAX_AGE_SECS: u64 = 604800;

/// The window in which JetStream drops a message whose id it has seen.
pub const DUPLICATE_WINDOW_SECS: u64 = 120;

/// How long the durable consumer waits for an acknowledgement.
pub const ACK_WAIT_SECS: u64 = 30;

/// How many times the durable consumer delivers one message at most.
pub const MAX_DELIVER: i64 = 8;

/// The largest message either stream accepts: one transport payload, as
/// JetStream's `i32` (saturated).
pub fn max_message_size() -> (r: i32)
    ensures
        r == MAX_TRANSPORT_BYTES,
{
    if MAX_TRANSPORT_BYTES > i32::MAX as usize {
        i32::MAX
    } else {
        MAX_TRANSPORT_BYTES as i32
    }
}

#[derive(Clone, Copy, Debug, PartialEq, Eq, Structural)]
pub enum TransportError {
    InvalidRequest,
    Unauthorized,
    AuthUnavailable,
    UnsupportedOperation,
    Timeout,
    Database,
    InvalidState,
    Transport,
}

/// The code a transport error is reported under; internal failures share
/// one code so that clients learn nothing about the store.
pub open spec fn transport_code(e: TransportError) -> Seq<char> {
    match e {
        TransportError::InvalidRequest => "invalid_request"@,
        TransportError::Unauthorized => "unauthorized"@,
        TransportError::AuthUnavailable => "auth_unavailable"@,
        TransportError::UnsupportedOperation => "unsupported_operation"@,
        TransportError::Timeout => "operation_timeout"@,
        TransportError::Database | TransportError::InvalidState | TransportError::Transport => "temporarily_unavailable"@,
    }
}

impl TransportError {
    pub fn code(self) -> (s: &'static str)
        ensures
            s@ == transport_code(self),
    {
        match self {
            TransportError::InvalidRequest => "invalid_request",
            TransportError::Unauthorized => "unauthorized",
            TransportError::AuthUnavailable => "auth_unavailable",
            TransportError::UnsupportedOperation => "unsupported_operation",
            TransportError::Timeout => "operation_timeout",
            TransportError::Database | TransportError::InvalidState | TransportError::Transport => "temporarily_unavailable",
        }
    }

    /// The text of the error, which is its code.
    pub fn to_string(self) -> (s: String)
        ensures
            s@ == transport_code(self),
    {
        String::from_str(self.code())
    }
}

/// A bearer for a transport operation: `Bearer ` then a non-empty token
/// without whitespace, at most 16 KiB in all.
pub open spec fn authorization_ok(value: Seq<char>) -> bool {
    let token = value.subrange(7, value.len() as int);
    &&& starts_with(value, "Bearer "@)
    &&& byte_len(value) <= MAX_AUTHORIZATION_BYTES
    &&& token.len() > 0
    &&& trimmed(token) == token
    &&& !has_whitespace(token)
}

pub fn validate_authorization(value: &str) -> (r: Result<(), TransportError>)
    ensures
        r is Ok <==> authorization_ok(value@),
        r is Err ==> r == Err::<(), TransportError>(TransportError::Unauthorized),
{
    proof {
        reveal_strlit("Bearer ");
    }
    if !has_prefix(value, "Bearer ") {
        return Err(TransportError::Unauthorized);
    }
    let token = value.substring_char(7, value.unicode_len());
    if byte_len_capped(value, MAX_AUTHORIZATION_BYTES + 1) > MAX_AUTHORIZATION_BYTES
        || token.unicode_len() == 0 || !same_text(trim(token).as_str(), token)
        || contains_whitespace(token) {
        return Err(TransportError::Unauthorized);
    }
    Ok(())
}

/// An operation with the bearer of the user it is performed for.
#[derive(Debug)]
pub struct AuthenticatedOperation {
    pub authorization: String,
    pub envelope: OperationEnvelope,
}

/// The checks of an authenticated operation: its bearer, then its envelope.
pub open spec fn operation_check(
    op: AuthenticatedOperation,
    mode: WebApiMode,
    encoded_len: nat,
    now_ms: u64,
) -> Result<(), TransportError> {
    if !authorization_ok(op.authorization@) {
        Err(TransportError::Unauthorized)
    } else if envelope_check(op.envelope, mode, encoded_len, now_ms) is Err {
        Err(TransportError::InvalidRequest)
    } else {
        Ok(())
    }
}

impl AuthenticatedOperation {
    /// Checks the bearer and the envelope for `mode`; `envelope_len` is the
    /// size of the envelope's JSON serialization.
    pub fn validate(&self, mode: WebApiMode, envelope_len: usize) -> (r: Result<(), TransportError>)
        ensures
            exists|now_ms: u64| r == operation_check(*self, mode, envelope_len as nat, now_ms),
    {
        match validate_authorization(self.authorization.as_str()) {
            Ok(()) => {},
            Err(e) => {
                assert(Err::<(), TransportError>(e) == operation_check(
                    *self,
                    mode,
                    envelope_len as nat,
                    0,
                ));
                return Err(e);
            },
        }
        let now = crate::web_data_plane::unix_time_ms();
        match self.envelope.validate_at(mode, envelope_len, now) {
            Ok(()) => {
                assert(Ok::<(), TransportError>(()) == operation_check(*self, mode, envelope_len as nat, now));
                Ok(())
            },
            Err(_) => {
                assert(Err::<(), TransportError>(TransportError::InvalidRequest) == operation_check(
                    *self,
                    mode,
                    envelope_len as nat,
                    now,
                ));
                Err(TransportError::InvalidRequest)
            },
        }
    }
}

/// The reply to a transport operation.
#[derive(Debug)]
pub struct OperationReply {
    pub operation_id: Option<String>,
    pub result: Option<Json>,
    pub error: Option<String>,
}

/// How the execution of a validated operation ended.
#[derive(Debug)]
pub enum ExecutionOutcome {
    Completed(Json),
    Failed(TransportError),
    TimedOut,
}

impl OperationReply {
    pub fn ok(operation_id: String, result: Json) -> (r: OperationReply)
        ensures
            r.operation_id == Some(operation_id),
            r.result == Some(result),
            r.error is None,
    {
        OperationReply { operation_id: Some(operation_id), result: Some(result), error: None }
    }

    pub fn error(operation_id: Option<String>, code: &str) -> (r: OperationReply)
        ensures
            r.operation_id == operation_id,
            r.result is None,
            r.error matches Some(e) && e@ == code@,
    {
        OperationReply { operation_id, result: None, error: Some(String::from_str(code)) }
    }

    /// The reply to a payload too large or not an operation at all.
    pub fn invalid_request() -> (r: OperationReply)
        ensures
            r.operation_id is None,
            r.result is None,
            r.error matches Some(e) && e@ == "invalid_request"@,
    {
        OperationReply::error(None, "invalid_request")
    }

    /// The reply to an operation that failed its checks.
    pub fn rejected(operation_id: String, error: TransportError) -> (r: OperationReply)
        ensures
            r.operation_id == Some(operation_id),
            r.result is None,
            r.error matches Some(e) && e@ == transport_code(error),
    {
        OperationReply::error(Some(operation_id), error.code())
    }

    /// The reply once the service has run (or timed out on) an operation.
    pub fn for_outcome(operation_id: String, outcome: ExecutionOutcome) -> (r: OperationReply)
        ensures
            r.operation_id == Some(operation_id),
            match outcome {
                ExecutionOutcome::Completed(v) => r.result == Some(v) && r.error is None,
                ExecutionOutcome::Failed(e) => r.result is None && (r.error matches Some(t) && t@
                    == transport_code(e)),
                ExecutionOutcome::TimedOut => r.result is None && (r.error matches Some(t) && t@
                    == transport_code(TransportError::Timeout)),
            },
    {
        match outcome {
            ExecutionOutcome::Completed(v) => OperationReply::ok(operation_id, v),
            ExecutionOutcome::Failed(e) => OperationReply::rejected(operation_id, e),
            ExecutionOutcome::TimedOut => OperationReply::rejected(
                operation_id,
                TransportError::Timeout,
            ),
        }
    }
}

/// Whether a transport payload is small enough to be read.
pub fn payload_within_limit(len: usize) -> (r: bool)
    ensures
        r == (len <= MAX_TRANSPORT_BYTES),
{
    len <= MAX_TRANSPORT_BYTES
}

/// An encoded reply must fit in one frame.
pub fn check_reply_size(len: usize) -> (r: Result<(), TransportError>)
    ensures
        r is Ok <==> len <= MAX_TRANSPORT_BYTES,
        r is Err ==> r == Err::<(), TransportError>(TransportError::Transport),
{
    if len > MAX_TRANSPORT_BYTES {
        return Err(TransportError::Transport);
    }
    Ok(())
}

/// Whether a connection limit lies within the reviewed bound
/// `1..=MAX_TCP_CONNECTIONS`.
pub fn connection_limit_ok(max_connections: usize) -> (r: bool)
    ensures
        r == (1 <= max_connections <= MAX_TCP_CONNECTIONS),
{
    1 <= max_connections && max_connections <= MAX_TCP_CONNECTIONS
}

/// Whether a worker concurrency lies within `1..=MAX_CONCURRENT_OPERATIONS`.
pub fn concurrency_ok(max_concurrency: usize) -> (r: bool)
    ensures
        r == (1 <= max_concurrency <= MAX_CONCURRENT_OPERATIONS),
{
    1 <= max_concurrency && max_concurrency <= MAX_CONCURRENT_OPERATIONS
}

/// Decides the fate of a payload that arrived on the durable queue before it
/// is parsed: its text, or `None` when it is larger than one transport
/// payload or not UTF-8 (such a message is terminated).
pub fn request_text(payload: &[u8]) -> (r: Option<String>)
    ensures
        r is Some <==> (payload@.len() <= MAX_TRANSPORT_BYTES && vstd::utf8::valid_utf8(payload@)),
        r matches Some(t) ==> t@ == vstd::utf8::decode_utf8(payload@),
{
    if payload.len() > MAX_TRANSPORT_BYTES {
        return None;
    }
    utf8_text(payload)
}

/// `std::str::from_utf8`, copied into a `String`: the text that `bytes`
/// encode, exactly when they are valid UTF-8.
#[verifier::external_body]
fn utf8_text(bytes: &[u8]) -> (r: Option<String>)
    ensures
        r is Some <==> vstd::utf8::valid_utf8(bytes@),
        r matches Some(t) ==> t@ == vstd::utf8::decode_utf8(bytes@),
{
    std::str::from_utf8(bytes).ok().map(|text| text.to_string())
}

/// The SHA-256 digest of `data`.
pub uninterp spec fn sha256(data: Seq<u8>) -> Seq<u8>;

/// `sha2::Sha256::digest`: the SHA-256 digest of `data`, which is 32 bytes
/// long. The contract names the digest and states its length, nothing more.
#[verifier::external_body]
fn sha256_digest(data: &[u8]) -> (r: Vec<u8>)
    ensures
        r@ == sha256(data@),
        r@.len() == 32,
{
    sha2::Sha256::digest(data).to_vec()
}

/// The lower-case hexadecimal digit for `d`, which lies in `0..16`.
pub open spec fn hex_char(d: int) -> char {
    if d == 0 {
        '0'
    } else if d == 1 {
        '1'
    } else if d == 2 {
        '2'
    } else if d == 3 {
        '3'
    } else if d == 4 {
        '4'
    } else if d == 5 {
        '5'
    } else if d == 6 {
        '6'
    } else if d == 7 {
        '7'
    } else if d == 8 {
        '8'
    } else if d == 9 {
        '9'
    } else if d == 10 {
        'a'
    } else if d == 11 {
        'b'
    } else if d == 12 {
        'c'
    } else if d == 13 {
        'd'
    } else if d == 14 {
        'e'
    } else {
        'f'
    }
}

fn hex_str(d: u8) -> (s: &'static str)
    requires
        d < 16,
    ensures
        s@ == seq![hex_char(d as int)],
{
    if d == 0 {
        proof {
            reveal_strlit("0");
        }
        "0"
    } else if d == 1 {
        proof {
            reveal_strlit("1");
        }
        "1"
    } else if d == 2 {
        proof {
            reveal_strlit("2");
        }
        "2"
    } else if d == 3 {
        proof {
            reveal_strlit("3");
        }
        "3"
    } else if d == 4 {
        proof {
            reveal_strlit("4");
        }
        "4"
    } else if d == 5 {
        proof {
            reveal_strlit("5");
        }
        "5"
    } else if d == 6 {
        proof {
            reveal_strlit("6");
        }
        "6"
    } else if d == 7 {
        proof {
            reveal_strlit("7");
        }
        "7"
    } else if d == 8 {
        proof {
            reveal_strlit("8");
        }
        "8"
    } else if d == 9 {
        proof {
            reveal_strlit("9");
        }
        "9"
    } else if d == 10 {
        proof {
            reveal_strlit("a");
        }
        "a"
    } else if d == 11 {
        proof {
            reveal_strlit("b");
        }
        "b"
    } else if d == 12 {
        proof {
            reveal_strlit("c");
        }
        "c"
    } else if d == 13 {
        proof {
            reveal_strlit("d");
        }
        "d"
    } else if d == 14 {
        proof {
            reveal_strlit("e");
        }
        "e"
    } else {
        proof {
            reveal_strlit("f");
        }
        "f"
    }
}

/// The two lower-case hexadecimal digits of a byte, high nibble first.
pub open spec fn hex_byte(b: u8) -> Seq<char> {
    seq![hex_char((b / 16) as int), hex_char((b % 16) as int)]
}

/// The lower-case hexadecimal form of a byte string.
pub open spec fn hex_lower(bytes: Seq<u8>) -> Seq<char>
    decreases bytes.len(),
{
    if bytes.len() == 0 {
        Seq::empty()
    } else {
        hex_lower(bytes.drop_last()) + hex_byte(bytes.last())
    }
}

/// The fingerprint under which the journal records a request: the
/// lower-case hexadecimal SHA-256 digest of its bytes.
pub open spec fn fingerprint(payload: Seq<u8>) -> Seq<char> {
    hex_lower(sha256(payload))
}

/// Two hexadecimal characters per byte.
pub proof fn lemma_hex_lower_len(bytes: Seq<u8>)
    ensures
        hex_lower(bytes).len() == 2 * bytes.len(),
    decreases bytes.len(),
{
    if bytes.len() > 0 {
        lemma_hex_lower_len(bytes.drop_last());
    }
}

proof fn lemma_hex_char_injective(x: int, y: int)
    requires
        0 <= x < 16,
        0 <= y < 16,
        hex_char(x) == hex_char(y),
    ensures
        x == y,
{
}

/// The hexadecimal form loses nothing: distinct byte strings have distinct
/// forms.
pub proof fn lemma_hex_lower_injective(a: Seq<u8>, b: Seq<u8>)
    requires
        hex_lower(a) == hex_lower(b),
    ensures
        a == b,
    decreases a.len(),
{
    lemma_hex_lower_len(a);
    lemma_hex_lower_len(b);
    if a.len() > 0 {
        let n = 2 * a.len();
        let ha = hex_lower(a);
        lemma_hex_lower_len(a.drop_last());
        lemma_hex_lower_len(b.drop_last());
        assert(ha[n - 2] == hex_char((a.last() / 16) as int));
        assert(ha[n - 1] == hex_char((a.last() % 16) as int));
        assert(hex_lower(b)[n - 2] == hex_char((b.last() / 16) as int));
        assert(hex_lower(b)[n - 1] == hex_char((b.last() % 16) as int));
        lemma_hex_char_injective((a.last() / 16) as int, (b.last() / 16) as int);
        lemma_hex_char_injective((a.last() % 16) as int, (b.last() % 16) as int);
        assert(a.last() == b.last());
        assert(hex_lower(a.drop_last()) =~= ha.subrange(0, n - 2));
        assert(hex_lower(b.drop_last()) =~= hex_lower(b).subrange(0, n - 2));
        lemma_hex_lower_injective(a.drop_last(), b.drop_last());
        assert(a =~= a.drop_last().push(a.last()));
        assert(b =~= b.drop_last().push(b.last()));
    }
}

/// Requests whose digests differ are journaled under different
/// fingerprints, so a changed request under a reused operation id is seen.
pub proof fn lemma_fingerprint_separates_digests(a: Seq<u8>, b: Seq<u8>)
    requires
        sha256(a) != sha256(b),
    ensures
        fingerprint(a) != fingerprint(b),
{
    if fingerprint(a) == fingerprint(b) {
        lemma_hex_lower_injective(sha256(a), sha256(b));
    }
}

fn hex_encode(bytes: &Vec<u8>) -> (r: String)
    ensures
        r@ == hex_lower(bytes@),
{
    let mut out = String::new();
    let mut i: usize = 0;
    while i < bytes.len()
        invariant
            i <= bytes.len(),
            out@ == hex_lower(bytes@.subrange(0, i as int)),
        decreases bytes.len() - i,
    {
        let b = bytes[i];
        out.append(hex_str(b / 16));
        out.append(hex_str(b % 16));
        let ghost next = bytes@.subrange(0, i + 1);
        assert(next.drop_last() =~= bytes@.subrange(0, i as int));
        assert(out@ =~= hex_lower(next));
        i = i + 1;
    }
    assert(bytes@.subrange(0, bytes.len() as int) =~= bytes@);
    out
}

/// The fingerprint of a request's bytes, 64 hexadecimal characters.
pub fn request_fingerprint(payload: &[u8]) -> (r: String)
    ensures
        r@ == fingerprint(payload@),
        r@.len() == 64,
{
    let digest = sha256_digest(payload);
    proof {
        lemma_hex_lower_len(digest@);
    }
    hex_encode(&digest)
}

/// The journal's answer to a claim on an operation id.
#[derive(Clone, Debug)]
pub enum JournalClaim {
    /// The operation id was free and is now held for this request.
    New,
    /// The operation completed earlier with this reply.
    Replay(Vec<u8>),
    /// Another delivery of the same request is being processed.
    Processing,
    /// The operation id was used for a different request or subject.
    Conflict,
}

/// The inbox row already held for an operation id.
#[derive(Clone, Debug)]
pub struct StoredClaim {
    pub subject: String,
    pub request_hash: String,
    pub status: String,
    pub result_json: Option<String>,
}

/// What a journal claim says, with a replayed reply as bytes.
pub enum ClaimView {
    New,
    Replay(Seq<u8>),
    Processing,
    Conflict,
}

impl View for JournalClaim {
    type V = ClaimView;

    open spec fn view(&self) -> ClaimView {
        match self {
            JournalClaim::New => ClaimView::New,
            JournalClaim::Replay(p) => ClaimView::Replay(p@),
            JournalClaim::Processing => ClaimView::Processing,
            JournalClaim::Conflict => ClaimView::Conflict,
        }
    }
}

/// The answer to a claim that found its operation id taken, from the inbox
/// row read back (`None` when none could be read) and the subject and
/// request fingerprint of the claiming request: another request or subject
/// under the same id is a conflict; the same request is still processing,
/// or completed with a recorded reply, which is replayed; any other row is
/// an inconsistent journal.
pub open spec fn claim_outcome(
    stored: Option<StoredClaim>,
    subject: Seq<char>,
    request_hash: Seq<char>,
) -> Result<ClaimView, TransportError> {
    match stored {
        None => Err(TransportError::InvalidState),
        Some(row) => if row.request_hash@ != request_hash || row.subject@ != subject {
            Ok(ClaimView::Conflict)
        } else if row.status@ == "processing"@ {
            Ok(ClaimView::Processing)
        } else if row.status@ == "completed"@ && row.result_json is Some {
            Ok(ClaimView::Replay(vstd::utf8::encode_utf8(row.result_json.unwrap()@)))
        } else {
            Err(TransportError::InvalidState)
        },
    }
}

/// Classifies a claim that found its operation id taken.
pub fn classify_claim(stored: Option<StoredClaim>, subject: &str, request_hash: &str) -> (r: Result<
    JournalClaim,
    TransportError,
>)
    ensures
        match r {
            Ok(c) => claim_outcome(stored, subject@, request_hash@) == Ok::<
                ClaimView,
                TransportError,
            >(c@),
            Err(e) => claim_outcome(stored, subject@, request_hash@) == Err::<
                ClaimView,
                TransportError,
            >(e),
        },
{
    let row = match stored {
        None => return Err(TransportError::InvalidState),
        Some(row) => row,
    };
    if !same_text(row.request_hash.as_str(), request_hash) || !same_text(
        row.subject.as_str(),
        subject,
    ) {
        return Ok(JournalClaim::Conflict);
    }
    if same_text(row.status.as_str(), "processing") {
        return Ok(JournalClaim::Processing);
    }
    if same_text(row.status.as_str(), "completed") {
        match row.result_json {
            Some(result) => {
                let bytes = result.as_str().as_bytes_vec();
                return Ok(JournalClaim::Replay(bytes));
            },
            None => {},
        }
    }
    Err(TransportError::InvalidState)
}

/// What the worker does with a queued message once its claim is known.
#[derive(Debug)]
pub enum DeliveryAction {
    /// Execute the operation, record its reply, then publish it.
    Execute,
    /// Publish this recorded reply again.
    Publish(Vec<u8>),
    /// Ask for redelivery after this many milliseconds.
    RetryAfterMs(u64),
    /// Terminate the message: it will never be delivered again.
    Terminate,
}

/// What a delivery action says, with a published reply as bytes.
pub enum ActionView {
    Execute,
    Publish(Seq<u8>),
    RetryAfterMs(u64),
    Terminate,
}

impl View for DeliveryAction {
    type V = ActionView;

    open spec fn view(&self) -> ActionView {
        match self {
            DeliveryAction::Execute => ActionView::Execute,
            DeliveryAction::Publish(p) => ActionView::Publish(p@),
            DeliveryAction::RetryAfterMs(ms) => ActionView::RetryAfterMs(*ms),
            DeliveryAction::Terminate => ActionView::Terminate,
        }
    }
}

/// A new claim is executed, a completed one replayed, one in progress
/// retried after `PROCESSING_RETRY_MS`, and a conflicting one terminated.
pub open spec fn action_for(c: ClaimView) -> ActionView {
    match c {
        ClaimView::New => ActionView::Execute,
        ClaimView::Replay(p) => ActionView::Publish(p),
        ClaimView::Processing => ActionView::RetryAfterMs(PROCESSING_RETRY_MS),
        ClaimView::Conflict => ActionView::Terminate,
    }
}

pub fn claim_action(claim: JournalClaim) -> (a: DeliveryAction)
    ensures
        a@ == action_for(claim@),
{
    match claim {
        JournalClaim::New => DeliveryAction::Execute,
        JournalClaim::Replay(p) => DeliveryAction::Publish(p),
        JournalClaim::Processing => DeliveryAction::RetryAfterMs(PROCESSING_RETRY_MS),
        JournalClaim::Conflict => DeliveryAction::Terminate,
    }
}

/// Broker redelivery never runs an operation twice: a claim that finds its
/// operation id taken is replayed, retried or terminated, never executed.
pub proof fn lemma_taken_ids_never_execute(row: StoredClaim, subject: Seq<char>, request_hash: Seq<char>)
    ensures
        claim_outcome(Some(row), subject, request_hash) matches Ok(c) ==> !(action_for(
            c,
        ) is Execute),
{
}

/// A redelivered request whose operation completed is answered with the
/// reply recorded for it.
pub proof fn lemma_completed_redelivery_replays(
    row: StoredClaim,
    subject: Seq<char>,
    request_hash: Seq<char>,
)
    requires
        row.subject@ == subject,
        row.request_hash@ == request_hash,
        row.status@ == "completed"@,
        row.result_json is Some,
    ensures
        claim_outcome(Some(row), subject, request_hash) matches Ok(c) && action_for(c)
            == ActionView::Publish(vstd::utf8::encode_utf8(row.result_json.unwrap()@)),
{
    reveal_strlit("completed");
    reveal_strlit("processing");
    assert(row.status@ != "processing"@) by {
        assert(row.status@[0] != "processing"@[0]);
    }
}

/// An operation id reused for another request or another subject is
/// terminated, so a changed request never takes over a recorded reply.
pub proof fn lemma_reused_ids_are_terminated(
    row: StoredClaim,
    subject: Seq<char>,
    request_hash: Seq<char>,
)
    requires
        row.subject@ != subject || row.request_hash@ != request_hash,
    ensures
        claim_outcome(Some(row), subject, request_hash) matches Ok(c) && action_for(c)
            == ActionView::Terminate,
{
}

/// Where the handling of one queued message stands.
#[derive(Clone, Copy, Debug, PartialEq, Eq, Structural)]
pub enum DeliveryPhase {
    /// The request is being read and claimed in the journal.
    Claiming,
    /// The operation is running.
    Executing,
    /// Its reply is being recorded in the journal.
    Recording,
    /// The reply is being handed to JetStream.
    Publishing,
    /// JetStream's acknowledgement of the publication is awaited.
    Confirming,
    /// The outbox entry is being marked as delivered.
    Marking,
    /// The queued message is being acknowledged, refused or put back.
    Acknowledging,
    Finished,
}

/// What the worker's I/O reports.
#[derive(Clone, Copy, Debug, PartialEq, Eq, Structural)]
pub enum DeliveryEvent {
    /// The message is too large, not UTF-8, not an operation, or fails its
    /// checks.
    Refused,
    /// The journal's claim called for this delivery action.
    ClaimedExecute,
    ClaimedReplay,
    ClaimedRetry,
    ClaimedTerminate,
    /// The operation ran and its reply is encoded.
    Executed,
    /// The journal recorded the reply.
    Recorded,
    /// JetStream accepted the publication.
    Published,
    /// JetStream acknowledged the publication.
    Confirmed,
    /// The outbox entry is marked as delivered.
    Marked,
    /// The queued message was acknowledged, refused or put back.
    Settled,
}

/// What the worker does next.
#[derive(Clone, Copy, Debug, PartialEq, Eq, Structural)]
pub enum DeliveryCommand {
    ExecuteOperation,
    RecordReply,
    PublishResult,
    AwaitConfirmation,
    MarkPublished,
    /// Acknowledge the message: it is done.
    Ack,
    /// Put the message back for redelivery after this many milliseconds.
    NakAfterMs(u64),
    /// Terminate the message: it is never delivered again.
    Term,
    /// Stop handling the message; an unacknowledged message is redelivered.
    Stop,
}

/// The next phase and what to do in it.
#[derive(Clone, Copy, Debug, PartialEq, Eq, Structural)]
pub struct DeliveryStep {
    pub phase: DeliveryPhase,
    pub command: DeliveryCommand,
}

/// The handling of a queued message: a refused request is terminated; a
/// new claim is executed, its reply recorded, then published; a completed
/// one is published again; one in progress is put back; a conflicting one
/// terminated. A publication is confirmed by JetStream before its outbox
/// entry is marked, and the message is acknowledged only after that. Any
/// other event stops the handling without acknowledging.
pub open spec fn delivery_step(p: DeliveryPhase, e: DeliveryEvent) -> DeliveryStep {
    let (phase, command) = match (p, e) {
        (DeliveryPhase::Claiming, DeliveryEvent::Refused) => (
            DeliveryPhase::Acknowledging,
            DeliveryCommand::Term,
        ),
        (DeliveryPhase::Claiming, DeliveryEvent::ClaimedExecute) => (
            DeliveryPhase::Executing,
            DeliveryCommand::ExecuteOperation,
        ),
        (DeliveryPhase::Claiming, DeliveryEvent::ClaimedReplay) => (
            DeliveryPhase::Publishing,
            DeliveryCommand::PublishResult,
        ),
        (DeliveryPhase::Claiming, DeliveryEvent::ClaimedRetry) => (
            DeliveryPhase::Acknowledging,
            DeliveryCommand::NakAfterMs(PROCESSING_RETRY_MS),
        ),
        (DeliveryPhase::Claiming, DeliveryEvent::ClaimedTerminate) => (
            DeliveryPhase::Acknowledging,
            DeliveryCommand::Term,
        ),
        (DeliveryPhase::Executing, DeliveryEvent::Executed) => (
            DeliveryPhase::Recording,
            DeliveryCommand::RecordReply,
        ),
        (DeliveryPhase::Recording, DeliveryEvent::Recorded) => (
            DeliveryPhase::Publishing,
            DeliveryCommand::PublishResult,
        ),
        (DeliveryPhase::Publishing, DeliveryEvent::Published) => (
            DeliveryPhase::Confirming,
            DeliveryCommand::AwaitConfirmation,
        ),
        (DeliveryPhase::Confirming, DeliveryEvent::Confirmed) => (
            DeliveryPhase::Marking,
            DeliveryCommand::MarkPublished,
        ),
        (DeliveryPhase::Marking, DeliveryEvent::Marked) => (
            DeliveryPhase::Acknowledging,
            DeliveryCommand::Ack,
        ),
        _ => (DeliveryPhase::Finished, DeliveryCommand::Stop),
    };
    DeliveryStep { phase, command }
}

/// The event that reports a claim's delivery action.
pub open spec fn claimed_event(a: ActionView) -> DeliveryEvent {
    match a {
        ActionView::Execute => DeliveryEvent::ClaimedExecute,
        ActionView::Publish(_) => DeliveryEvent::ClaimedReplay,
        ActionView::RetryAfterMs(_) => DeliveryEvent::ClaimedRetry,
        ActionView::Terminate => DeliveryEvent::ClaimedTerminate,
    }
}

impl DeliveryAction {
    /// The event that reports this action to the delivery steps.
    pub fn event(&self) -> (e: DeliveryEvent)
        ensures
            e == claimed_event(self@),
    {
        match self {
            DeliveryAction::Execute => DeliveryEvent::ClaimedExecute,
            DeliveryAction::Publish(_) => DeliveryEvent::ClaimedReplay,
            DeliveryAction::RetryAfterMs(_) => DeliveryEvent::ClaimedRetry,
            DeliveryAction::Terminate => DeliveryEvent::ClaimedTerminate,
        }
    }
}

impl DeliveryPhase {
    /// The first phase of every message.
    pub fn start() -> (p: DeliveryPhase)
        ensures
            p == DeliveryPhase::Claiming,
    {
        DeliveryPhase::Claiming
    }

    pub fn next(self, event: DeliveryEvent) -> (s: DeliveryStep)
        ensures
            s == delivery_step(self, event),
    {
        let (phase, command) = match (self, event) {
            (DeliveryPhase::Claiming, DeliveryEvent::Refused) => (
                DeliveryPhase::Acknowledging,
                DeliveryCommand::Term,
            ),
            (DeliveryPhase::Claiming, DeliveryEvent::ClaimedExecute) => (
                DeliveryPhase::Executing,
                DeliveryCommand::ExecuteOperation,
            ),
            (DeliveryPhase::Claiming, DeliveryEvent::ClaimedReplay) => (
                DeliveryPhase::Publishing,
                DeliveryCommand::PublishResult,
            ),
            (DeliveryPhase::Claiming, DeliveryEvent::ClaimedRetry) => (
                DeliveryPhase::Acknowledging,
                DeliveryCommand::NakAfterMs(PROCESSING_RETRY_MS),
            ),
            (DeliveryPhase::Claiming, DeliveryEvent::ClaimedTerminate) => (
                DeliveryPhase::Acknowledging,
                DeliveryCommand::Term,
            ),
            (DeliveryPhase::Executing, DeliveryEvent::Executed) => (
                DeliveryPhase::Recording,
                DeliveryCommand::RecordReply,
            ),
            (DeliveryPhase::Recording, DeliveryEvent::Recorded) => (
                DeliveryPhase::Publishing,
                DeliveryCommand::PublishResult,
            ),
            (DeliveryPhase::Publishing, DeliveryEvent::Published) => (
                DeliveryPhase::Confirming,
                DeliveryCommand::AwaitConfirmation,
            ),
            (DeliveryPhase::Confirming, DeliveryEvent::Confirmed) => (
                DeliveryPhase::Marking,
                DeliveryCommand::MarkPublished,
            ),
            (DeliveryPhase::Marking, DeliveryEvent::Marked) => (
                DeliveryPhase::Acknowledging,
                DeliveryCommand::Ack,
            ),
            _ => (DeliveryPhase::Finished, DeliveryCommand::Stop),
        };
        DeliveryStep { phase, command }
    }
}

/// The phase a message reaches through `events`, from `Claiming`.
pub open spec fn delivery_phase(events: Seq<DeliveryEvent>) -> DeliveryPhase
    decreases events.len(),
{
    if events.len() == 0 {
        DeliveryPhase::Claiming
    } else {
        delivery_step(delivery_phase(events.drop_last()), events.last()).phase
    }
}

/// The commands issued along `events`, one per event.
pub open spec fn delivery_commands(events: Seq<DeliveryEvent>) -> Seq<DeliveryCommand>
    decreases events.len(),
{
    if events.len() == 0 {
        Seq::empty()
    } else {
        delivery_commands(events.drop_last()).push(
            delivery_step(delivery_phase(events.drop_last()), events.last()).command,
        )
    }
}

proof fn lemma_commands_len(events: Seq<DeliveryEvent>)
    ensures
        delivery_commands(events).len() == events.len(),
    decreases events.len(),
{
    if events.len() > 0 {
        lemma_commands_len(events.drop_last());
    }
}

/// A message is in `Publishing` only right after a publication was ordered.
proof fn lemma_publishing_follows_publish(events: Seq<DeliveryEvent>)
    requires
        delivery_phase(events) == DeliveryPhase::Publishing,
    ensures
        events.len() > 0,
        delivery_commands(events).last() == DeliveryCommand::PublishResult,
{
    lemma_commands_len(events);
}

/// A message is in `Confirming` only right after the confirmation was
/// awaited, and a publication was ordered before.
proof fn lemma_confirming_follows_publication(events: Seq<DeliveryEvent>)
    requires
        delivery_phase(events) == DeliveryPhase::Confirming,
    ensures
        events.len() > 1,
        delivery_commands(events).last() == DeliveryCommand::AwaitConfirmation,
        delivery_commands(events)[events.len() - 2] == DeliveryCommand::PublishResult,
{
    lemma_commands_len(events);
    let prefix = events.drop_last();
    lemma_publishing_follows_publish(prefix);
    lemma_commands_len(prefix);
}

/// A message is in `Marking` only right after its outbox entry was ordered
/// marked, after JetStream confirmed the publication, after it was
/// published.
proof fn lemma_marking_follows_confirmation(events: Seq<DeliveryEvent>)
    requires
        delivery_phase(events) == DeliveryPhase::Marking,
    ensures
        events.len() > 2,
        delivery_commands(events).last() == DeliveryCommand::MarkPublished,
        delivery_commands(events)[events.len() - 2] == DeliveryCommand::AwaitConfirmation,
        delivery_commands(events)[events.len() - 3] == DeliveryCommand::PublishResult,
{
    lemma_commands_len(events);
    let prefix = events.drop_last();
    lemma_confirming_follows_publication(prefix);
    lemma_commands_len(prefix);
}

/// A queued message is acknowledged as done only after its reply was
/// published, JetStream confirmed the publication, and the outbox entry was
/// marked, in this order and right before: the acknowledgement never
/// outruns the durable record of the result.
pub proof fn lemma_ack_follows_confirmed_publication(events: Seq<DeliveryEvent>, k: int)
    requires
        0 <= k < delivery_commands(events).len(),
        delivery_commands(events)[k] == DeliveryCommand::Ack,
    ensures
        k >= 3,
        delivery_commands(events)[k - 1] == DeliveryCommand::MarkPublished,
        delivery_commands(events)[k - 2] == DeliveryCommand::AwaitConfirmation,
        delivery_commands(events)[k - 3] == DeliveryCommand::PublishResult,
    decreases events.len(),
{
    lemma_commands_len(events);
    let prefix = events.drop_last();
    lemma_commands_len(prefix);
    if k == events.len() - 1 {
        lemma_marking_follows_confirmation(prefix);
    } else {
        lemma_ack_follows_confirmed_publication(prefix, k);
    }
}

/// An executed operation's reply is published only after it was recorded:
/// every publication follows a recorded reply or a replayed claim.
pub proof fn lemma_publication_follows_record_or_replay(p: DeliveryPhase, e: DeliveryEvent)
    requires
        delivery_step(p, e).command == DeliveryCommand::PublishResult,
    ensures
        (p == DeliveryPhase::Recording && e == DeliveryEvent::Recorded) || (p
            == DeliveryPhase::Claiming && e == DeliveryEvent::ClaimedReplay),
{
}

/// A refused request and a conflicting claim are terminated at once: no
/// operation runs and nothing is published for them.
pub proof fn lemma_refusals_terminate(e: DeliveryEvent)
    requires
        e == DeliveryEvent::Refused || e == DeliveryEvent::ClaimedTerminate,
    ensures
        delivery_step(DeliveryPhase::Claiming, e) == (DeliveryStep {
            phase: DeliveryPhase::Acknowledging,
            command: DeliveryCommand::Term,
        }),
{
}

/// The text of a reply about to be recorded as completed; a reply that is
/// not UTF-8 leaves the journal in an invalid state.
pub fn completion_text(result_json: &[u8]) -> (r: Result<String, TransportError>)
    ensures
        r is Ok <==> vstd::utf8::valid_utf8(result_json@),
        r matches Ok(t) ==> t@ == vstd::utf8::decode_utf8(result_json@),
        r is Err ==> r == Err::<String, TransportError>(TransportError::InvalidState),
{
    match utf8_text(result_json) {
        Some(t) => Ok(t),
        None => Err(TransportError::InvalidState),
    }
}

/// Completing an operation must move exactly one inbox row out of
/// `processing`; any other count means the journal is inconsistent.
pub fn check_completed_rows(rows_affected: u64) -> (r: Result<(), TransportError>)
    ensures
        r is Ok <==> rows_affected == 1,
        r is Err ==> r == Err::<(), TransportError>(TransportError::InvalidState),
{
    if rows_affected != 1 {
        return Err(TransportError::InvalidState);
    }
    Ok(())
}

/// The deduplication id of an operation's result message.
pub open spec fn result_message_id(operation_id: Seq<char>) -> Seq<char> {
    "act-operation-result:"@ + operation_id
}

/// A result message ready to be published.
#[derive(Debug)]
pub struct ResultPublication {
    pub subject: String,
    pub payload: Vec<u8>,
    pub message_id: String,
}

/// The message that publishes an operation's result: the outbox entry still
/// pending when there is one, else `computed` on the result subject; its
/// deduplication id depends on the operation id alone.
pub fn result_publication(
    operation_id: &str,
    pending: Option<(String, Vec<u8>)>,
    computed: Vec<u8>,
) -> (p: ResultPublication)
    ensures
        p.message_id@ == result_message_id(operation_id@),
        match pending {
            Some((s, b)) => p.subject@ == s@ && p.payload@ == b@,
            None => p.subject@ == JETSTREAM_RESULT_SUBJECT@ && p.payload@ == computed@,
        },
{
    let message_id = String::from_str("act-operation-result:").concat(operation_id);
    match pending {
        Some((subject, payload)) => ResultPublication { subject, payload, message_id },
        None => ResultPublication {
            subject: String::from_str(JETSTREAM_RESULT_SUBJECT),
            payload: computed,
            message_id,
        },
    }
}

/// Each operation has its own result deduplication id: redeliveries of one
/// operation publish under one id, and no two operations share one.
pub proof fn lemma_result_message_ids_distinct(a: Seq<char>, b: Seq<char>)
    ensures
        result_message_id(a) == result_message_id(b) <==> a == b,
{
    let p = "act-operation-result:"@;
    if result_message_id(a) == result_message_id(b) {
        assert(a =~= result_message_id(a).subrange(p.len() as int, result_message_id(a).len() as int));
        assert(b =~= result_message_id(b).subrange(p.len() as int, result_message_id(b).len() as int));
    }
}

/// Durable status of an operation, as the status route reports it.
#[derive(Debug)]
pub struct OperationStatus {
    pub operation_id: String,
    pub status: String,
    pub result: Option<Json>,
}

/// Names and bounds of the durable JetStream worker.
#[derive(Clone, Debug)]
pub struct JetStreamConfig {
    pub request_subject: String,
    pub result_subject: String,
    pub request_stream: String,
    pub result_stream: String,
    pub durable_consumer: String,
    pub max_concurrency: usize,
}

impl Default for JetStreamConfig {
    fn default() -> (c: Self)
        ensures
            c.request_subject@ == JETSTREAM_REQUEST_SUBJECT@,
            c.result_subject@ == JETSTREAM_RESULT_SUBJECT@,
            c.request_stream@ == JETSTREAM_REQUEST_STREAM@,
            c.result_stream@ == JETSTREAM_RESULT_STREAM@,
            c.durable_consumer@ == JETSTREAM_DURABLE_CONSUMER@,
            c.max_concurrency == MAX_CONCURRENT_OPERATIONS,
    {
        JetStreamConfig {
            request_subject: String::from_str(JETSTREAM_REQUEST_SUBJECT),
            result_subject: String::from_str(JETSTREAM_RESULT_SUBJECT),
            request_stream: String::from_str(JETSTREAM_REQUEST_STREAM),
            result_stream: String::from_str(JETSTREAM_RESULT_STREAM),
            durable_consumer: String::from_str(JETSTREAM_DURABLE_CONSUMER),
            max_concurrency: MAX_CONCURRENT_OPERATIONS,
        }
    }
}

} // verus!
