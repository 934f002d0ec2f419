//! Decisions of the HTTP control plane and of the transport operation
//! service: the errors they answer with, the request ids they hand out, the
//! documents they return and the one operation a verified caller may run
//! over the bounded transports.
use vstd::prelude::*;

use crate::auth::AuthFailure;
use crate::gas_client::{
    error_code, error_details, error_text, member, member_views, str_or_null, YoutubeClientError,
    YoutubeGasClient,
};
use crate::json::{json_view, members_view, Json, JsonMember, JsonView};
use crate::text::{decimal, lemma_decimal_injective, lemma_decimal_value, render_decimal, same_text};
use crate::transport_runtime::{AuthenticatedOperation, OperationStatus, TransportError};
use crate::web_data_plane::{system_time_ms, valid_identifier, validate_identifier, DataOperation};
use crate::web_url::opt_view;
use crate::youtube::{action_name, is_mutating, YoutubeAction};

verus! {

/// Largest request body the control routes read.
pub const MAX_CONTROL_BODY_BYTES: usize = 1048576;

/// The scope a delegated bearer needs for every protected route.
pub const YOUTUBE_ADMIN_SCOPE: &'static str = "youtube:admin";

/// The challenge sent with every `401` answer.
pub const BEARER_CHALLENGE: &'static str = "Bearer realm=\"anticaptrad-admin\"";

/// An error answer of the control routes.
#[derive(Debug)]
pub struct ApiError {
    pub status: u16,
    pub code: &'static str,
    pub message: String,
    /// The members of the `details` object, when there is one.
    pub details: Option<Vec<JsonMember>>,
    pub request_id: Option<String>,
}

/// What an error answer holds.
pub struct ApiErrorView {
    pub status: u16,
    pub code: Seq<char>,
    pub message: Seq<char>,
    pub details: Option<Seq<(Seq<char>, JsonView)>>,
    pub request_id: Option<Seq<char>>,
}

impl View for ApiError {
    type V = ApiErrorView;

    open spec fn view(&self) -> ApiErrorView {
        ApiErrorView {
            status: self.status,
            code: self.code@,
            message: self.message@,
            details: match self.details {
                Some(ms) => Some(member_views(ms@)),
                None => None,
            },
            request_id: opt_view(self.request_id),
        }
    }
}

/// An error answer without details or request id.
pub open spec fn plain_error(status: u16, code: Seq<char>, message: Seq<char>) -> ApiErrorView {
    ApiErrorView { status, code, message, details: None, request_id: None }
}

/// The answer to a caller that Shared Auth did not accept: an absent or
/// invalid bearer is `401`, an unreachable Shared Auth is `503`.
pub open spec fn auth_failure_error(f: AuthFailure) -> ApiErrorView {
    match f {
        AuthFailure::Missing | AuthFailure::Invalid => plain_error(
            401,
            "UNAUTHORIZED"@,
            "a valid delegated Shared Auth bearer is required"@,
        ),
        AuthFailure::Unavailable => plain_error(
            503,
            "SHARED_AUTH_UNAVAILABLE"@,
            "Shared Auth verification is unavailable"@,
        ),
    }
}

/// The answer to an Apps Script failure: a request the control plane
/// refused itself is the caller's fault (`400`), anything else is the
/// upstream's (`502`).
pub open spec fn youtube_error(e: YoutubeClientError, request_id: Seq<char>) -> ApiErrorView {
    ApiErrorView {
        status: if e is Validation {
            400
        } else {
            502
        },
        code: error_code(e),
        message: error_text(e),
        details: error_details(e),
        request_id: Some(request_id),
    }
}

fn plain(status: u16, code: &'static str, message: &str) -> (r: ApiError)
    ensures
        r@ == plain_error(status, code@, message@),
{
    ApiError { status, code, message: String::from_str(message), details: None, request_id: None }
}

impl ApiError {
    /// Protected routes stay closed while Shared Auth is not configured.
    pub fn shared_auth_not_configured() -> (r: ApiError)
        ensures
            r@ == plain_error(
                503,
                "SHARED_AUTH_NOT_CONFIGURED"@,
                "Shared Auth is not configured; protected routes are closed"@,
            ),
    {
        plain(
            503,
            "SHARED_AUTH_NOT_CONFIGURED",
            "Shared Auth is not configured; protected routes are closed",
        )
    }

    pub fn for_auth_failure(failure: AuthFailure) -> (r: ApiError)
        ensures
            r@ == auth_failure_error(failure),
    {
        match failure {
            AuthFailure::Missing | AuthFailure::Invalid => plain(
                401,
                "UNAUTHORIZED",
                "a valid delegated Shared Auth bearer is required",
            ),
            AuthFailure::Unavailable => plain(
                503,
                "SHARED_AUTH_UNAVAILABLE",
                "Shared Auth verification is unavailable",
            ),
        }
    }

    pub fn youtube_not_configured() -> (r: ApiError)
        ensures
            r@ == plain_error(
                503,
                "YOUTUBE_GAS_NOT_CONFIGURED"@,
                "set YOUTUBE_GAS_URL and YOUTUBE_GAS_API_KEY to enable channel management"@,
            ),
    {
        plain(
            503,
            "YOUTUBE_GAS_NOT_CONFIGURED",
            "set YOUTUBE_GAS_URL and YOUTUBE_GAS_API_KEY to enable channel management",
        )
    }

    pub fn unknown_action(action_name: &str) -> (r: ApiError)
        ensures
            r@ == plain_error(
                404,
                "UNKNOWN_YOUTUBE_ACTION"@,
                "unsupported YouTube action: "@ + action_name@,
            ),
    {
        let message = String::from_str("unsupported YouTube action: ").concat(action_name);
        ApiError {
            status: 404,
            code: "UNKNOWN_YOUTUBE_ACTION",
            message,
            details: None,
            request_id: None,
        }
    }

    /// A header that is present but not visible ASCII.
    pub fn invalid_header(name: &str) -> (r: ApiError)
        ensures
            r@ == plain_error(400, "INVALID_HEADER"@, name@ + " must contain valid ASCII"@),
    {
        let message = String::from_str(name).concat(" must contain valid ASCII");
        ApiError { status: 400, code: "INVALID_HEADER", message, details: None, request_id: None }
    }

    pub fn invalid_operation_id() -> (r: ApiError)
        ensures
            r@ == plain_error(400, "INVALID_OPERATION_ID"@, "operation id is invalid"@),
    {
        plain(400, "INVALID_OPERATION_ID", "operation id is invalid")
    }

    pub fn durable_operations_not_configured() -> (r: ApiError)
        ensures
            r@ == plain_error(
                503,
                "DURABLE_OPERATIONS_NOT_CONFIGURED"@,
                "durable operation status is unavailable"@,
            ),
    {
        plain(503, "DURABLE_OPERATIONS_NOT_CONFIGURED", "durable operation status is unavailable")
    }

    pub fn operation_status_unavailable() -> (r: ApiError)
        ensures
            r@ == plain_error(
                503,
                "DURABLE_OPERATION_STATUS_UNAVAILABLE"@,
                "durable operation status is unavailable"@,
            ),
    {
        plain(
            503,
            "DURABLE_OPERATION_STATUS_UNAVAILABLE",
            "durable operation status is unavailable",
        )
    }

    pub fn operation_not_found() -> (r: ApiError)
        ensures
            r@ == plain_error(404, "OPERATION_NOT_FOUND"@, "operation not found"@),
    {
        plain(404, "OPERATION_NOT_FOUND", "operation not found")
    }

    pub fn from_youtube(error: YoutubeClientError, request_id: String) -> (r: ApiError)
        ensures
            r@ == youtube_error(error, request_id@),
    {
        let status: u16 = match &error {
            YoutubeClientError::Validation(_) => 400,
            _ => 502,
        };
        let code = error.code();
        let message = error.message();
        let details = error.details();
        ApiError { status, code, message, details, request_id: Some(request_id) }
    }

    /// The `WWW-Authenticate` challenge that goes with the answer: only a
    /// `401` carries one.
    pub fn challenge(&self) -> (r: Option<&'static str>)
        ensures
            r is Some <==> self.status == 401,
            r matches Some(c) ==> c@ == BEARER_CHALLENGE@,
    {
        if self.status == 401 {
            Some(BEARER_CHALLENGE)
        } else {
            None
        }
    }

    /// The JSON body of the answer: `ok: false`, the error's code, message
    /// and details (when there are any), and the request id (when there is
    /// one).
    pub fn into_body(self) -> (r: Json)
        ensures
            json_view(r) == error_body(self@),
    {
        let ghost v = self@;
        let mut error: Vec<JsonMember> = Vec::new();
        error.push(member("code", Json::Str(String::from_str(self.code))));
        error.push(member("message", Json::Str(self.message)));
        match self.details {
            Some(ms) => {
                let ghost d = ms@;
                error.push(member("details", Json::Object(ms)));
                proof {
                    lemma_members_view_is_member_views(d);
                }
            },
            None => {},
        }
        let ghost error_members = error@;
        let mut body: Vec<JsonMember> = Vec::new();
        body.push(member("ok", Json::Bool(false)));
        body.push(member("error", Json::Object(error)));
        match self.request_id {
            Some(id) => body.push(member("requestId", Json::Str(id))),
            None => {},
        }
        proof {
            lemma_members_view_is_member_views(error_members);
            lemma_members_view_is_member_views(body@);
            assert(member_views(error_members) =~= error_members_view(v));
            assert(member_views(body@) =~= error_body_members(v));
        }
        Json::Object(body)
    }
}

/// The members of the `error` object of an answer.
pub open spec fn error_members_view(v: ApiErrorView) -> Seq<(Seq<char>, JsonView)> {
    let head = seq![("code"@, JsonView::Str(v.code)), ("message"@, JsonView::Str(v.message))];
    match v.details {
        Some(d) => head.push(("details"@, JsonView::Object(d))),
        None => head,
    }
}

/// The members of the body of an error answer.
pub open spec fn error_body_members(v: ApiErrorView) -> Seq<(Seq<char>, JsonView)> {
    let head = seq![
        ("ok"@, JsonView::Bool(false)),
        ("error"@, JsonView::Object(error_members_view(v))),
    ];
    match v.request_id {
        Some(id) => head.push(("requestId"@, JsonView::Str(id))),
        None => head,
    }
}

/// The body of an error answer.
pub open spec fn error_body(v: ApiErrorView) -> JsonView {
    JsonView::Object(error_body_members(v))
}

/// The view of an object's members is the list of their keys and views.
pub proof fn lemma_members_view_is_member_views(ms: Seq<JsonMember>)
    ensures
        members_view(ms, ms.len() as int) == member_views(ms),
{
    lemma_members_view_prefix_of(ms, ms.len() as int);
    assert(member_views(ms).subrange(0, ms.len() as int) =~= member_views(ms));
}

proof fn lemma_members_view_prefix_of(ms: Seq<JsonMember>, k: int)
    requires
        0 <= k <= ms.len(),
    ensures
        members_view(ms, k) =~= member_views(ms).subrange(0, k),
    decreases k,
{
    if k > 0 {
        lemma_members_view_prefix_of(ms, k - 1);
        assert(member_views(ms).subrange(0, k) =~= member_views(ms).subrange(0, k - 1).push(
            (ms[k - 1].key@, json_view(ms[k - 1].value)),
        ));
    }
}

/// An operation id in a status request: non-empty, at most 128 bytes,
/// without control characters or surrounding whitespace.
pub fn check_operation_id(operation_id: &str) -> (r: Result<(), ApiError>)
    ensures
        r is Ok <==> valid_identifier(operation_id@, 128),
        r matches Err(e) ==> e@ == plain_error(
            400,
            "INVALID_OPERATION_ID"@,
            "operation id is invalid"@,
        ),
{
    match validate_identifier(operation_id, 128) {
        Ok(()) => Ok(()),
        Err(_) => Err(ApiError::invalid_operation_id()),
    }
}

/// The members of a durable status record.
pub open spec fn status_members(s: OperationStatus) -> Seq<(Seq<char>, JsonView)> {
    seq![
        ("operationId"@, JsonView::Str(s.operation_id@)),
        ("status"@, JsonView::Str(s.status@)),
        ("result"@, match s.result {
            Some(v) => json_view(v),
            None => JsonView::Null,
        }),
    ]
}

/// The answer to a status request once the journal was asked: a failed
/// lookup is `503`, an unknown operation `404`, a record
/// `{"ok": true, "data": record}`.
pub fn operation_status_response(lookup: Result<Option<OperationStatus>, TransportError>) -> (r:
    Result<Json, ApiError>)
    ensures
        match lookup {
            Err(_) => r matches Err(e) && e@ == plain_error(
                503,
                "DURABLE_OPERATION_STATUS_UNAVAILABLE"@,
                "durable operation status is unavailable"@,
            ),
            Ok(None) => r matches Err(e) && e@ == plain_error(
                404,
                "OPERATION_NOT_FOUND"@,
                "operation not found"@,
            ),
            Ok(Some(s)) => r matches Ok(j) && json_view(j) == JsonView::Object(
                seq![("ok"@, JsonView::Bool(true)), ("data"@, JsonView::Object(status_members(s)))],
            ),
        },
{
    match lookup {
        Err(_) => Err(ApiError::operation_status_unavailable()),
        Ok(None) => Err(ApiError::operation_not_found()),
        Ok(Some(s)) => {
            let ghost sv = status_members(s);
            let result = match s.result {
                Some(v) => v,
                None => Json::Null,
            };
            let mut data: Vec<JsonMember> = Vec::new();
            data.push(member("operationId", Json::Str(s.operation_id)));
            data.push(member("status", Json::Str(s.status)));
            data.push(member("result", result));
            let ghost dm = data@;
            let mut body: Vec<JsonMember> = Vec::new();
            body.push(member("ok", Json::Bool(true)));
            body.push(member("data", Json::Object(data)));
            proof {
                lemma_members_view_is_member_views(dm);
                lemma_members_view_is_member_views(body@);
                assert(member_views(dm) =~= sv);
                assert(member_views(body@) =~= seq![
                    ("ok"@, JsonView::Bool(true)),
                    ("data"@, JsonView::Object(sv)),
                ]);
            }
            Ok(Json::Object(body))
        },
    }
}

/// The id of a control request: `yt-`, the clock in milliseconds, `-`, and
/// the sequence number the request drew.
pub open spec fn request_id_text(millis: nat, sequence: nat) -> Seq<char> {
    "yt-"@ + decimal(millis) + "-"@ + decimal(sequence)
}

/// `request_id_text` for the given clock reading and sequence number.
pub fn format_request_id(millis: u128, sequence: u64) -> (r: String)
    ensures
        r@ == request_id_text(millis as nat, sequence as nat),
{
    String::from_str("yt-").concat(render_decimal(millis).as_str()).concat("-").concat(
        render_decimal(sequence as u128).as_str(),
    )
}

/// The sequence number that follows `n`, wrapping at the end of `u64`.
pub open spec fn next_sequence(n: u64) -> u64 {
    if n == u64::MAX {
        0
    } else {
        (n + 1) as u64
    }
}

/// The source of request ids: a sequence counter, first 1, that every id
/// draws from.
#[derive(Debug)]
pub struct RequestIds {
    next: u64,
}

impl RequestIds {
    /// The sequence number the next id will carry.
    pub closed spec fn spec_next(&self) -> u64 {
        self.next
    }

    pub fn new() -> (r: RequestIds)
        ensures
            r.spec_next() == 1,
    {
        RequestIds { next: 1 }
    }

    /// A fresh id: the current clock reading (0 when the clock is before
    /// the epoch) and the next sequence number, which advances.
    pub fn request_id(&mut self) -> (r: String)
        ensures
            exists|millis: nat| r@ == request_id_text(millis, old(self).spec_next() as nat),
            final(self).spec_next() == next_sequence(old(self).spec_next()),
    {
        let millis: u128 = match system_time_ms() {
            Some(ms) => ms,
            None => 0,
        };
        let sequence = self.next;
        self.next = if sequence == u64::MAX {
            0
        } else {
            sequence + 1
        };
        let r = format_request_id(millis, sequence);
        assert(r@ == request_id_text(millis as nat, old(self).spec_next() as nat));
        r
    }
}

proof fn lemma_decimal_has_no_dash(n: nat, i: int)
    requires
        0 <= i < decimal(n).len(),
    ensures
        decimal(n)[i] != '-',
{
    lemma_decimal_value(n);
    assert(crate::text::is_digit(decimal(n)[i]));
}

/// Ids that drew different sequence numbers differ, whatever the clock
/// said: the counter alone keeps request ids unique until it wraps.
pub proof fn lemma_request_ids_distinct(m1: nat, s1: nat, m2: nat, s2: nat)
    requires
        s1 != s2,
    ensures
        request_id_text(m1, s1) != request_id_text(m2, s2),
{
    reveal_strlit("yt-");
    reveal_strlit("-");
    let a = decimal(m1);
    let b = decimal(m2);
    let x = request_id_text(m1, s1);
    let y = request_id_text(m2, s2);
    lemma_decimal_value(m1);
    lemma_decimal_value(m2);
    if x == y {
        if a.len() < b.len() {
            lemma_decimal_has_no_dash(m2, a.len() as int);
            assert(x[3 + a.len() as int] == '-');
            assert(y[3 + a.len() as int] == b[a.len() as int]);
        } else if b.len() < a.len() {
            lemma_decimal_has_no_dash(m1, b.len() as int);
            assert(y[3 + b.len() as int] == '-');
            assert(x[3 + b.len() as int] == a[b.len() as int]);
        } else {
            let start: int = 4 + a.len() as int;
            assert(decimal(s1) =~= x.subrange(start, x.len() as int));
            assert(decimal(s2) =~= y.subrange(start, y.len() as int));
            lemma_decimal_injective(s1, s2);
        }
    }
}

/// The id of an action request: its idempotency key when the caller sent
/// one (no sequence number is drawn then), else a fresh id.
pub fn action_request_id(idempotency_key: Option<&str>, ids: &mut RequestIds) -> (r: String)
    ensures
        match idempotency_key {
            Some(k) => r@ == k@ && final(ids).spec_next() == old(ids).spec_next(),
            None => (exists|millis: nat| r@ == request_id_text(millis, old(ids).spec_next() as nat))
                && final(ids).spec_next() == next_sequence(old(ids).spec_next()),
        },
{
    match idempotency_key {
        Some(k) => String::from_str(k),
        None => ids.request_id(),
    }
}

/// What an action request carries in its `Idempotency-Key` header.
#[derive(Clone, Debug, PartialEq, Eq)]
pub enum HeaderReading {
    Absent,
    /// Present but not visible ASCII.
    Unreadable,
    Present(String),
}

/// The refusal of an authorized action request, before a request id is
/// drawn: an unknown action is `404`, then an unreadable `Idempotency-Key`
/// `400`.
pub open spec fn action_refusal(action_name: Seq<char>, header: HeaderReading) -> Option<ApiErrorView> {
    if forall|a: YoutubeAction| crate::youtube::action_name(a) != action_name {
        Some(plain_error(404, "UNKNOWN_YOUTUBE_ACTION"@, "unsupported YouTube action: "@ + action_name))
    } else if header is Unreadable {
        Some(plain_error(400, "INVALID_HEADER"@, "idempotency-key"@ + " must contain valid ASCII"@))
    } else {
        None
    }
}

/// Admits an authorized action request: the action it names and its
/// idempotency key, or the refusal. A refused request is neither announced
/// on the event bus nor sent to Apps Script.
pub fn admit_action(action_name: &str, header: HeaderReading) -> (r: Result<
    (YoutubeAction, Option<String>),
    ApiError,
>)
    ensures
        match r {
            Ok((action, key)) => {
                &&& action_refusal(action_name@, header) is None
                &&& crate::youtube::action_name(action) == action_name@
                &&& key == match header {
                    HeaderReading::Present(k) => Some(k),
                    _ => None::<String>,
                }
            },
            Err(e) => action_refusal(action_name@, header) == Some(e@),
        },
{
    let action = match YoutubeAction::parse(action_name) {
        Some(a) => a,
        None => return Err(ApiError::unknown_action(action_name)),
    };
    let key = match header {
        HeaderReading::Absent => None,
        HeaderReading::Unreadable => return Err(ApiError::invalid_header("idempotency-key")),
        HeaderReading::Present(k) => Some(k),
    };
    Ok((action, key))
}

/// The stages of an action's lifecycle, each announced on the event bus.
#[derive(Clone, Copy, Debug, PartialEq, Eq, Structural)]
pub enum ActionStage {
    Requested,
    Succeeded,
    Failed,
}

pub open spec fn stage_name(s: ActionStage) -> Seq<char> {
    match s {
        ActionStage::Requested => "requested"@,
        ActionStage::Succeeded => "succeeded"@,
        ActionStage::Failed => "failed"@,
    }
}

/// The subject an action's stage is announced on.
pub open spec fn lifecycle_subject_text(action: YoutubeAction, stage: ActionStage) -> Seq<char> {
    "act.youtube."@ + action_name(action) + "."@ + stage_name(stage)
}

pub fn lifecycle_subject(action: YoutubeAction, stage: ActionStage) -> (r: String)
    ensures
        r@ == lifecycle_subject_text(action, stage),
{
    let stage_text = match stage {
        ActionStage::Requested => "requested",
        ActionStage::Succeeded => "succeeded",
        ActionStage::Failed => "failed",
    };
    String::from_str("act.youtube.").concat(action.as_str()).concat(".").concat(stage_text)
}

/// A duration as a JSON number.
pub open spec fn millis_view(ms: u128) -> JsonView {
    JsonView::Number(decimal(ms as nat))
}

/// The event announcing a request: its id, the action, whether it changes
/// state, and the audited request fields.
pub fn requested_event(request_id: &str, action: YoutubeAction, fields: Vec<JsonMember>) -> (r: Json)
    ensures
        json_view(r) == JsonView::Object(
            seq![
                ("requestId"@, JsonView::Str(request_id@)),
                ("action"@, JsonView::Str(action_name(action))),
                ("mutating"@, JsonView::Bool(is_mutating(action))),
                ("fields"@, JsonView::Object(member_views(fields@))),
            ],
        ),
{
    let ghost f = fields@;
    let mut ms: Vec<JsonMember> = Vec::new();
    ms.push(member("requestId", Json::Str(String::from_str(request_id))));
    ms.push(member("action", Json::Str(String::from_str(action.as_str()))));
    ms.push(member("mutating", Json::Bool(action.is_mutating())));
    ms.push(member("fields", Json::Object(fields)));
    proof {
        lemma_members_view_is_member_views(f);
        lemma_members_view_is_member_views(ms@);
        assert(member_views(ms@) =~= seq![
            ("requestId"@, JsonView::Str(request_id@)),
            ("action"@, JsonView::Str(action_name(action))),
            ("mutating"@, JsonView::Bool(is_mutating(action))),
            ("fields"@, JsonView::Object(member_views(f))),
        ]);
    }
    Json::Object(ms)
}

/// The event announcing that an action succeeded.
pub fn succeeded_event(request_id: &str, action: YoutubeAction, duration_ms: u128) -> (r: Json)
    ensures
        json_view(r) == JsonView::Object(
            seq![
                ("requestId"@, JsonView::Str(request_id@)),
                ("action"@, JsonView::Str(action_name(action))),
                ("durationMs"@, millis_view(duration_ms)),
            ],
        ),
{
    let mut ms: Vec<JsonMember> = Vec::new();
    ms.push(member("requestId", Json::Str(String::from_str(request_id))));
    ms.push(member("action", Json::Str(String::from_str(action.as_str()))));
    ms.push(member("durationMs", Json::Number(render_decimal(duration_ms))));
    proof {
        lemma_members_view_is_member_views(ms@);
        assert(member_views(ms@) =~= seq![
            ("requestId"@, JsonView::Str(request_id@)),
            ("action"@, JsonView::Str(action_name(action))),
            ("durationMs"@, millis_view(duration_ms)),
        ]);
    }
    Json::Object(ms)
}

/// The event announcing that an action failed, with the error's code.
pub fn failed_event(request_id: &str, action: YoutubeAction, duration_ms: u128, error_code: &str) -> (r:
    Json)
    ensures
        json_view(r) == JsonView::Object(
            seq![
                ("requestId"@, JsonView::Str(request_id@)),
                ("action"@, JsonView::Str(action_name(action))),
                ("durationMs"@, millis_view(duration_ms)),
                ("errorCode"@, JsonView::Str(error_code@)),
            ],
        ),
{
    let mut ms: Vec<JsonMember> = Vec::new();
    ms.push(member("requestId", Json::Str(String::from_str(request_id))));
    ms.push(member("action", Json::Str(String::from_str(action.as_str()))));
    ms.push(member("durationMs", Json::Number(render_decimal(duration_ms))));
    ms.push(member("errorCode", Json::Str(String::from_str(error_code))));
    proof {
        lemma_members_view_is_member_views(ms@);
        assert(member_views(ms@) =~= seq![
            ("requestId"@, JsonView::Str(request_id@)),
            ("action"@, JsonView::Str(action_name(action))),
            ("durationMs"@, millis_view(duration_ms)),
            ("errorCode"@, JsonView::Str(error_code@)),
        ]);
    }
    Json::Object(ms)
}

/// The answer to an Apps Script call that succeeded.
pub fn success_body(request_id: &str, duration_ms: u128, data: Json) -> (r: Json)
    ensures
        json_view(r) == JsonView::Object(
            seq![
                ("ok"@, JsonView::Bool(true)),
                ("requestId"@, JsonView::Str(request_id@)),
                ("durationMs"@, millis_view(duration_ms)),
                ("data"@, json_view(data)),
            ],
        ),
{
    let ghost d = json_view(data);
    let mut ms: Vec<JsonMember> = Vec::new();
    ms.push(member("ok", Json::Bool(true)));
    ms.push(member("requestId", Json::Str(String::from_str(request_id))));
    ms.push(member("durationMs", Json::Number(render_decimal(duration_ms))));
    ms.push(member("data", data));
    proof {
        lemma_members_view_is_member_views(ms@);
        assert(member_views(ms@) =~= seq![
            ("ok"@, JsonView::Bool(true)),
            ("requestId"@, JsonView::Str(request_id@)),
            ("durationMs"@, millis_view(duration_ms)),
            ("data"@, d),
        ]);
    }
    Json::Object(ms)
}

/// Readiness: the HTTP process serves, and which fail-soft dependencies are
/// configured, without endpoints or credentials.
pub fn ready_document(
    nats_connected: bool,
    youtube_configured: bool,
    shared_auth_configured: bool,
    durable_operations_configured: bool,
) -> (r: Json)
    ensures
        json_view(r) == JsonView::Object(
            seq![
                ("ready"@, JsonView::Bool(true)),
                ("nats_connected"@, JsonView::Bool(nats_connected)),
                ("youtube_configured"@, JsonView::Bool(youtube_configured)),
                ("shared_auth_configured"@, JsonView::Bool(shared_auth_configured)),
                ("durable_operations_configured"@, JsonView::Bool(durable_operations_configured)),
            ],
        ),
{
    let mut ms: Vec<JsonMember> = Vec::new();
    ms.push(member("ready", Json::Bool(true)));
    ms.push(member("nats_connected", Json::Bool(nats_connected)));
    ms.push(member("youtube_configured", Json::Bool(youtube_configured)));
    ms.push(member("shared_auth_configured", Json::Bool(shared_auth_configured)));
    ms.push(member("durable_operations_configured", Json::Bool(durable_operations_configured)));
    proof {
        lemma_members_view_is_member_views(ms@);
        assert(member_views(ms@) =~= seq![
            ("ready"@, JsonView::Bool(true)),
            ("nats_connected"@, JsonView::Bool(nats_connected)),
            ("youtube_configured"@, JsonView::Bool(youtube_configured)),
            ("shared_auth_configured"@, JsonView::Bool(shared_auth_configured)),
            ("durable_operations_configured"@, JsonView::Bool(durable_operations_configured)),
        ]);
    }
    Json::Object(ms)
}

/// The members of the configuration summary an administrator reads.
pub open spec fn status_document_view(c: YoutubeGasClient) -> Seq<(Seq<char>, JsonView)> {
    seq![
        ("configured"@, JsonView::Bool(true)),
        ("expectedChannelHandle"@, JsonView::Str(c.spec_expected_channel_handle())),
        ("deploymentId"@, str_or_null(
            crate::web_url::deployment_id_of(c.spec_web_app_url().path),
        )),
        ("publicActionsEnabled"@, JsonView::Bool(c.spec_allow_public_actions())),
        ("appsScriptApiKeyPresent"@, JsonView::Bool(true)),
        ("appsScriptApiKeyExposed"@, JsonView::Bool(false)),
    ]
}

fn status_object(client: &YoutubeGasClient) -> (r: Json)
    ensures
        json_view(r) == JsonView::Object(status_document_view(*client)),
{
    let ms = client.status_document();
    proof {
        lemma_members_view_is_member_views(ms@);
    }
    Json::Object(ms)
}

/// The answer of the status route: `{"ok": true, "data": summary}`.
pub fn youtube_status_body(client: &YoutubeGasClient) -> (r: Json)
    ensures
        json_view(r) == JsonView::Object(
            seq![
                ("ok"@, JsonView::Bool(true)),
                ("data"@, JsonView::Object(status_document_view(*client))),
            ],
        ),
{
    let data = status_object(client);
    let ghost d = json_view(data);
    let mut ms: Vec<JsonMember> = Vec::new();
    ms.push(member("ok", Json::Bool(true)));
    ms.push(member("data", data));
    proof {
        lemma_members_view_is_member_views(ms@);
        assert(member_views(ms@) =~= seq![("ok"@, JsonView::Bool(true)), ("data"@, d)]);
    }
    Json::Object(ms)
}

/// How a Shared Auth failure ends a transport operation.
pub open spec fn transport_failure(f: AuthFailure) -> TransportError {
    match f {
        AuthFailure::Missing | AuthFailure::Invalid => TransportError::Unauthorized,
        AuthFailure::Unavailable => TransportError::AuthUnavailable,
    }
}

pub fn transport_auth_failure(failure: AuthFailure) -> (r: TransportError)
    ensures
        r == transport_failure(failure),
{
    match failure {
        AuthFailure::Missing | AuthFailure::Invalid => TransportError::Unauthorized,
        AuthFailure::Unavailable => TransportError::AuthUnavailable,
    }
}

/// The one operation the transports serve: a read of `youtube_status` with
/// an empty payload, for the subject the bearer was verified as.
pub open spec fn supported_operation(op: AuthenticatedOperation) -> bool {
    &&& op.envelope.resource@ == "youtube_status"@
    &&& op.envelope.operation == DataOperation::Read
    &&& json_view(op.envelope.payload) == JsonView::Object(Seq::empty())
}

/// Runs a transport operation once Shared Auth has verified its bearer as
/// `verified_subject`: the envelope must name that subject, and only the
/// configuration summary can be read, when the Apps Script client is
/// configured.
pub fn execute_operation(
    verified_subject: &str,
    request: &AuthenticatedOperation,
    youtube: Option<&YoutubeGasClient>,
) -> (r: Result<Json, TransportError>)
    ensures
        verified_subject@ != request.envelope.subject@ ==> r == Err::<Json, TransportError>(
            TransportError::Unauthorized,
        ),
        verified_subject@ == request.envelope.subject@ && !supported_operation(*request) ==> r
            == Err::<Json, TransportError>(TransportError::UnsupportedOperation),
        verified_subject@ == request.envelope.subject@ && supported_operation(*request) ==> match youtube {
            None => r == Err::<Json, TransportError>(TransportError::UnsupportedOperation),
            Some(c) => r matches Ok(j) && json_view(j) == JsonView::Object(status_document_view(*c)),
        },
{
    if !same_text(verified_subject, request.envelope.subject.as_str()) {
        return Err(TransportError::Unauthorized);
    }
    let empty_payload = match &request.envelope.payload {
        Json::Object(ms) => ms.len() == 0,
        _ => false,
    };
    proof {
        reveal_strlit("youtube_status");
        if request.envelope.payload is Object {
            let ms = request.envelope.payload->0@;
            lemma_members_view_is_member_views(ms);
            assert(member_views(ms).len() == ms.len());
            assert(empty_payload == (ms.len() == 0));
        }
        assert(empty_payload <==> json_view(request.envelope.payload) == JsonView::Object(
            Seq::empty(),
        ));
    }
    if !same_text(request.envelope.resource.as_str(), "youtube_status") || request.envelope.operation
        != DataOperation::Read || !empty_payload {
        return Err(TransportError::UnsupportedOperation);
    }
    match youtube {
        None => Err(TransportError::UnsupportedOperation),
        Some(client) => Ok(status_object(client)),
    }
}

/// A startup that cannot serve what it was configured for.
#[derive(Clone, Copy, Debug, PartialEq, Eq, Structural)]
pub enum StartupError {
    /// The mTLS listener needs Shared Auth to verify each operation's bearer.
    MtlsRequiresSharedAuth,
}

/// The operation workers a startup runs.
#[derive(Clone, Copy, Debug, PartialEq, Eq, Structural)]
pub struct OperationWorkers {
    pub mtls_listener: bool,
    pub jetstream_worker: bool,
}

/// Which operation workers start: both serve only operations whose bearers
/// Shared Auth verifies, so neither runs without it; the mTLS listener runs
/// when configured (and the startup fails when it is configured without
/// Shared Auth), the JetStream worker when the journal and NATS are up too.
pub open spec fn operation_workers_outcome(
    shared_auth_configured: bool,
    mtls_configured: bool,
    journal_connected: bool,
    nats_connected: bool,
) -> Result<OperationWorkers, StartupError> {
    if mtls_configured && !shared_auth_configured {
        Err(StartupError::MtlsRequiresSharedAuth)
    } else {
        Ok(
            OperationWorkers {
                mtls_listener: mtls_configured,
                jetstream_worker: shared_auth_configured && journal_connected && nats_connected,
            },
        )
    }
}

pub fn operation_workers(
    shared_auth_configured: bool,
    mtls_configured: bool,
    journal_connected: bool,
    nats_connected: bool,
) -> (r: Result<OperationWorkers, StartupError>)
    ensures
        r == operation_workers_outcome(
            shared_auth_configured,
            mtls_configured,
            journal_connected,
            nats_connected,
        ),
{
    if mtls_configured && !shared_auth_configured {
        return Err(StartupError::MtlsRequiresSharedAuth);
    }
    Ok(
        OperationWorkers {
            mtls_listener: mtls_configured,
            jetstream_worker: shared_auth_configured && journal_connected && nats_connected,
        },
    )
}

/// No operation worker runs without Shared Auth.
pub proof fn lemma_workers_need_shared_auth(mtls: bool, journal: bool, nats: bool)
    ensures
        operation_workers_outcome(false, mtls, journal, nats) matches Ok(w) ==> !w.mtls_listener
            && !w.jetstream_worker,
{
}

} // verus!
