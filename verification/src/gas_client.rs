//! The Apps Script client's decisions: the request body it sends, how it
//! reads a response, the errors it reports and the redacted record of a
//! request that is published on the event bus.
use vstd::prelude::*;

use crate::config::YoutubeConfig;
use crate::json::{
    json_view, object_get, object_insert, object_map, is_str, Json, JsonMember, JsonView,
};
use crate::text::{
    contains_text, decimal, has_substring, render_decimal, same_text,
};
use crate::web_url::{
    deployment_id, deployment_id_of, opt_view, parse_url, url_parse_result, UrlParts, UrlView,
};
use crate::youtube::{
    action_name, field_name, opt_str_view,
    payload_issue, prepare_payload, prepared_body, Field, ValidationError, ValidationIssue,
    YoutubeAction,
};

verus! {

/// The text `<str as Debug>` writes for `s`: the string in double quotes,
/// with quotes, backslashes and non-printable characters escaped.
pub uninterp spec fn debug_text(s: Seq<char>) -> Seq<char>;

/// Formats `s` with `{:?}` (std's `Debug` for `str`). The contract names the
/// result `debug_text`, a function of the text alone, and states nothing
/// more of the escaping.
#[verifier::external_body]
fn debug_quoted(s: &str) -> (r: String)
    ensures
        r@ == debug_text(s@),
{
    format!("{:?}", s)
}

/// The text `String::from_utf8_lossy` gives for `bytes`.
pub uninterp spec fn lossy_text(bytes: Seq<u8>) -> Seq<char>;

/// Decodes `bytes` with `String::from_utf8_lossy`, which replaces invalid
/// sequences with U+FFFD. The contract names the result and states the
/// documented case: valid UTF-8 is decoded as it is.
#[verifier::external_body]
fn decode_lossy(bytes: &[u8]) -> (r: String)
    ensures
        r@ == lossy_text(bytes@),
        vstd::utf8::valid_utf8(bytes@) ==> r@ == vstd::utf8::decode_utf8(bytes@),
{
    String::from_utf8_lossy(bytes).into_owned()
}

/// The first `n` characters of `s`.
pub open spec fn first_chars(s: Seq<char>, n: int) -> Seq<char> {
    if s.len() <= n {
        s
    } else {
        s.subrange(0, n)
    }
}

/// At most the first 500 characters of the lossy decoding of a body.
pub open spec fn body_preview(bytes: Seq<u8>) -> Seq<char> {
    first_chars(lossy_text(bytes), 500)
}

/// At most the first 500 characters of a response body, decoded lossily.
pub fn preview(bytes: &[u8]) -> (r: String)
    ensures
        r@ == body_preview(bytes@),
{
    let text = decode_lossy(bytes);
    let n = text.as_str().unicode_len();
    if n <= 500 {
        text
    } else {
        text.as_str().substring_char(0, 500).to_owned()
    }
}

/// The `ValidationError` text for a field name with a fixed ending.
fn field_message(f: Field, ending: &str) -> (r: String)
    ensures
        r@ == field_name(f) + ending@,
{
    String::from_str(f.name()).concat(ending)
}

/// The text reported for a refused request.
pub open spec fn issue_text(v: ValidationIssue) -> Seq<char> {
    match v {
        ValidationIssue::NotObject => "request body must be a JSON object"@,
        ValidationIssue::MissingIdempotencyKey => "mutating actions require an Idempotency-Key header"@,
        ValidationIssue::IdempotencyKeyLength => "Idempotency-Key must contain 1 to 200 characters"@,
        ValidationIssue::IdempotencyKeyCharacters => "Idempotency-Key must contain printable ASCII without spaces"@,
        ValidationIssue::Required(f) => field_name(f) + " is required and must be non-empty"@,
        ValidationIssue::EmptyField(f) => field_name(f) + " must not be empty"@,
        ValidationIssue::NotString(f) => field_name(f) + " must be a string"@,
        ValidationIssue::RightsNotConfirmed => "startUpload requires rightsConfirmed=true"@,
        ValidationIssue::UploadNotPrivate => "startUpload must remain private; publish in a separate approved action"@,
        ValidationIssue::IdempotencyKeyMismatch => "body idempotencyKey must match the Idempotency-Key header"@,
        ValidationIssue::InvalidPrivacy => "privacyStatus must be private, unlisted, or public"@,
        ValidationIssue::PublicActionsDisabled => "public and unlisted actions are disabled by YOUTUBE_ALLOW_PUBLIC_ACTIONS"@,
        ValidationIssue::ConfirmationMismatch(e) => "confirmation must exactly equal "@ + debug_text(e),
        ValidationIssue::PublicPlaylistsDisabled => "non-private playlists are disabled by YOUTUBE_ALLOW_PUBLIC_ACTIONS"@,
    }
}

impl ValidationError {
    /// The text reported for this error.
    pub fn message(&self) -> (r: String)
        ensures
            r@ == issue_text(self@),
    {
        match self {
            ValidationError::NotObject => String::from_str("request body must be a JSON object"),
            ValidationError::MissingIdempotencyKey => String::from_str(
                "mutating actions require an Idempotency-Key header",
            ),
            ValidationError::IdempotencyKeyLength => String::from_str(
                "Idempotency-Key must contain 1 to 200 characters",
            ),
            ValidationError::IdempotencyKeyCharacters => String::from_str(
                "Idempotency-Key must contain printable ASCII without spaces",
            ),
            ValidationError::Required(f) => field_message(*f, " is required and must be non-empty"),
            ValidationError::EmptyField(f) => field_message(*f, " must not be empty"),
            ValidationError::NotString(f) => field_message(*f, " must be a string"),
            ValidationError::RightsNotConfirmed => String::from_str(
                "startUpload requires rightsConfirmed=true",
            ),
            ValidationError::UploadNotPrivate => String::from_str(
                "startUpload must remain private; publish in a separate approved action",
            ),
            ValidationError::IdempotencyKeyMismatch => String::from_str(
                "body idempotencyKey must match the Idempotency-Key header",
            ),
            ValidationError::InvalidPrivacy => String::from_str(
                "privacyStatus must be private, unlisted, or public",
            ),
            ValidationError::PublicActionsDisabled => String::from_str(
                "public and unlisted actions are disabled by YOUTUBE_ALLOW_PUBLIC_ACTIONS",
            ),
            ValidationError::ConfirmationMismatch(e) => String::from_str(
                "confirmation must exactly equal ",
            ).concat(debug_quoted(e.as_str()).as_str()),
            ValidationError::PublicPlaylistsDisabled => String::from_str(
                "non-private playlists are disabled by YOUTUBE_ALLOW_PUBLIC_ACTIONS",
            ),
        }
    }
}

/// An application error returned by Apps Script in its `{ok: false}`
/// envelope.
#[derive(Debug)]
pub struct GasError {
    pub message: String,
    pub code: String,
    pub details: Option<Json>,
}

/// Why an Apps Script call failed.
#[derive(Debug)]
pub enum YoutubeClientError {
    /// The request did not complete; the transport's own description.
    Http(String),
    ResponseTooLarge { max_bytes: usize },
    /// Apps Script answered with a status other than 2xx.
    UpstreamHttp {
        status: u16,
        /// The canonical reason phrase of the status, if it has one.
        reason: Option<String>,
        final_url: UrlParts,
        location: Option<String>,
        body: String,
    },
    /// The body was not a JSON envelope; the parser's description and a
    /// preview of the body.
    InvalidJson { source: String, preview: String },
    AppsScript(GasError),
    Validation(ValidationError),
}

/// Whether an HTTP status is a redirection (3xx).
pub open spec fn is_redirection(status: u16) -> bool {
    300 <= status <= 399
}

/// Whether an HTTP status is a success (2xx).
pub open spec fn is_success(status: u16) -> bool {
    200 <= status <= 299
}

/// The machine-readable code of an error. A redirect to the Google sign-in
/// host means the deployment still admits only its owner.
pub open spec fn error_code(e: YoutubeClientError) -> Seq<char> {
    match e {
        YoutubeClientError::Http(_) => "YOUTUBE_GAS_HTTP_ERROR"@,
        YoutubeClientError::ResponseTooLarge { .. } => "YOUTUBE_GAS_RESPONSE_TOO_LARGE"@,
        YoutubeClientError::UpstreamHttp { status, location, .. } => if is_redirection(status)
            && location is Some && contains_text(location.unwrap()@, "accounts.google.com"@) {
            "YOUTUBE_GAS_OWNER_ONLY"@
        } else {
            "YOUTUBE_GAS_UPSTREAM_HTTP_ERROR"@
        },
        YoutubeClientError::InvalidJson { .. } => "YOUTUBE_GAS_INVALID_JSON"@,
        YoutubeClientError::AppsScript(_) => "YOUTUBE_GAS_APPLICATION_ERROR"@,
        YoutubeClientError::Validation(_) => "VALIDATION_ERROR"@,
    }
}

/// How `StatusCode` displays: the number, a space and the reason phrase.
pub open spec fn status_text(status: u16, reason: Option<Seq<char>>) -> Seq<char> {
    decimal(status as nat) + " "@ + match reason {
        Some(r) => r,
        None => "<unknown status code>"@,
    }
}

/// How `Option<String>` displays with `{:?}`.
pub open spec fn debug_option_text(o: Option<Seq<char>>) -> Seq<char> {
    match o {
        Some(s) => "Some("@ + debug_text(s) + ")"@,
        None => "None"@,
    }
}

/// The human-readable text of an error.
pub open spec fn error_text(e: YoutubeClientError) -> Seq<char> {
    match e {
        YoutubeClientError::Http(m) => "Apps Script request failed: "@ + m@,
        YoutubeClientError::ResponseTooLarge { max_bytes } => "Apps Script response exceeded "@
            + decimal(max_bytes as nat) + " bytes"@,
        YoutubeClientError::UpstreamHttp { status, reason, final_url, location, .. } => if is_redirection(
            status,
        ) {
            "Apps Script returned redirect "@ + status_text(status, opt_view(reason)) + " from "@
                + final_url.serialization@ + "; target was "@ + debug_option_text(
                opt_view(location),
            ) + ". The deployment may still be owner-only"@
        } else {
            "Apps Script returned HTTP "@ + status_text(status, opt_view(reason))
        },
        YoutubeClientError::InvalidJson { source, preview } => "Apps Script returned invalid JSON ("@
            + source@ + "); preview: "@ + preview@,
        YoutubeClientError::AppsScript(g) => "Apps Script "@ + g.code@ + ": "@ + g.message@,
        YoutubeClientError::Validation(v) => issue_text(v@),
    }
}

fn status_string(status: u16, reason: &Option<String>) -> (r: String)
    ensures
        r@ == status_text(status, opt_view(*reason)),
{
    let number = render_decimal(status as u128);
    let with_space = number.concat(" ");
    match reason {
        Some(text) => with_space.concat(text.as_str()),
        None => with_space.concat("<unknown status code>"),
    }
}

fn debug_option(o: &Option<String>) -> (r: String)
    ensures
        r@ == debug_option_text(opt_view(*o)),
{
    match o {
        Some(text) => String::from_str("Some(").concat(debug_quoted(text.as_str()).as_str()).concat(
            ")",
        ),
        None => String::from_str("None"),
    }
}

/// The members `key: value` of a small object, in order.
pub open spec fn member_views(ms: Seq<JsonMember>) -> Seq<(Seq<char>, JsonView)> {
    ms.map_values(|m: JsonMember| (m.key@, json_view(m.value)))
}

/// A string value, or `null`.
pub open spec fn str_or_null(o: Option<Seq<char>>) -> JsonView {
    match o {
        Some(s) => JsonView::Str(s),
        None => JsonView::Null,
    }
}

/// The structured details of an error, for the error response body.
pub open spec fn error_details(e: YoutubeClientError) -> Option<Seq<(Seq<char>, JsonView)>> {
    match e {
        YoutubeClientError::AppsScript(g) => Some(
            seq![
                ("upstreamCode"@, JsonView::Str(g.code@)),
                ("upstreamDetails"@, match g.details {
                    Some(d) => json_view(d),
                    None => JsonView::Null,
                }),
            ],
        ),
        YoutubeClientError::UpstreamHttp { status, final_url, location, body, .. } => Some(
            seq![
                ("status"@, JsonView::Number(decimal(status as nat))),
                ("finalHost"@, str_or_null(final_url@.host)),
                ("locationHost"@, str_or_null(
                    match location {
                        Some(l) => match url_parse_result(l@) {
                            Some(u) => u.host,
                            None => None,
                        },
                        None => None,
                    },
                )),
                ("bodyPreview"@, JsonView::Str(body@)),
            ],
        ),
        YoutubeClientError::ResponseTooLarge { max_bytes } => Some(
            seq![("maxBytes"@, JsonView::Number(decimal(max_bytes as nat)))],
        ),
        _ => None,
    }
}

pub(crate) fn str_or_null_json(o: Option<String>) -> (r: Json)
    ensures
        json_view(r) == str_or_null(opt_view(o)),
{
    match o {
        Some(s) => Json::Str(s),
        None => Json::Null,
    }
}

pub(crate) fn member(key: &str, value: Json) -> (m: JsonMember)
    ensures
        m.key@ == key@,
        m.value == value,
{
    JsonMember { key: String::from_str(key), value }
}

impl YoutubeClientError {
    /// The machine-readable code of this error.
    pub fn code(&self) -> (r: &'static str)
        ensures
            r@ == error_code(*self),
    {
        match self {
            YoutubeClientError::Http(_) => "YOUTUBE_GAS_HTTP_ERROR",
            YoutubeClientError::ResponseTooLarge { .. } => "YOUTUBE_GAS_RESPONSE_TOO_LARGE",
            YoutubeClientError::UpstreamHttp { status, location, .. } => {
                let owner_only = 300 <= *status && *status <= 399 && match location {
                    Some(l) => has_substring(l.as_str(), "accounts.google.com"),
                    None => false,
                };
                if owner_only {
                    "YOUTUBE_GAS_OWNER_ONLY"
                } else {
                    "YOUTUBE_GAS_UPSTREAM_HTTP_ERROR"
                }
            },
            YoutubeClientError::InvalidJson { .. } => "YOUTUBE_GAS_INVALID_JSON",
            YoutubeClientError::AppsScript(_) => "YOUTUBE_GAS_APPLICATION_ERROR",
            YoutubeClientError::Validation(_) => "VALIDATION_ERROR",
        }
    }

    /// The human-readable text of this error.
    pub fn message(&self) -> (r: String)
        ensures
            r@ == error_text(*self),
    {
        match self {
            YoutubeClientError::Http(m) => String::from_str("Apps Script request failed: ").concat(
                m.as_str(),
            ),
            YoutubeClientError::ResponseTooLarge { max_bytes } => String::from_str(
                "Apps Script response exceeded ",
            ).concat(render_decimal(*max_bytes as u128).as_str()).concat(" bytes"),
            YoutubeClientError::UpstreamHttp { status, reason, final_url, location, .. } => {
                if 300 <= *status && *status <= 399 {
                    String::from_str("Apps Script returned redirect ").concat(
                        status_string(*status, reason).as_str(),
                    ).concat(" from ").concat(final_url.serialization.as_str()).concat(
                        "; target was ",
                    ).concat(debug_option(location).as_str()).concat(
                        ". The deployment may still be owner-only",
                    )
                } else {
                    String::from_str("Apps Script returned HTTP ").concat(
                        status_string(*status, reason).as_str(),
                    )
                }
            },
            YoutubeClientError::InvalidJson { source, preview } => String::from_str(
                "Apps Script returned invalid JSON (",
            ).concat(source.as_str()).concat("); preview: ").concat(preview.as_str()),
            YoutubeClientError::AppsScript(g) => String::from_str("Apps Script ").concat(
                g.code.as_str(),
            ).concat(": ").concat(g.message.as_str()),
            YoutubeClientError::Validation(v) => v.message(),
        }
    }

    /// The structured details of this error, as the members of a JSON object.
    pub fn details(&self) -> (r: Option<Vec<JsonMember>>)
        ensures
            match r {
                Some(ms) => error_details(*self) == Some(member_views(ms@)),
                None => error_details(*self) is None,
            },
    {
        match self {
            YoutubeClientError::AppsScript(g) => {
                let details = match &g.details {
                    Some(d) => d.duplicate(),
                    None => Json::Null,
                };
                let mut ms: Vec<JsonMember> = Vec::new();
                ms.push(member("upstreamCode", Json::Str(g.code.clone())));
                ms.push(member("upstreamDetails", details));
                assert(member_views(ms@) =~= error_details(*self).unwrap());
                Some(ms)
            },
            YoutubeClientError::UpstreamHttp { status, final_url, location, body, .. } => {
                let location_host = match location {
                    Some(l) => match parse_url(l.as_str()) {
                        Some(u) => u.host,
                        None => None,
                    },
                    None => None,
                };
                let mut ms: Vec<JsonMember> = Vec::new();
                ms.push(member("status", Json::Number(render_decimal(*status as u128))));
                ms.push(member("finalHost", str_or_null_json(final_url.host.clone())));
                ms.push(member("locationHost", str_or_null_json(location_host)));
                ms.push(member("bodyPreview", Json::Str(body.clone())));
                assert(member_views(ms@) =~= error_details(*self).unwrap());
                Some(ms)
            },
            YoutubeClientError::ResponseTooLarge { max_bytes } => {
                let mut ms: Vec<JsonMember> = Vec::new();
                ms.push(member("maxBytes", Json::Number(render_decimal(*max_bytes as u128))));
                assert(member_views(ms@) =~= error_details(*self).unwrap());
                Some(ms)
            },
            _ => None,
        }
    }
}

/// The JSON envelope every Apps Script response carries.
#[derive(Debug)]
pub struct GasEnvelope {
    pub ok: bool,
    pub data: Option<Json>,
    pub error: Option<GasError>,
}

/// Refuses a response whose declared length exceeds the cap, before its
/// body is read.
pub fn check_declared_length(content_length: Option<u64>, max_response_bytes: usize) -> (r: Result<
    (),
    YoutubeClientError,
>)
    ensures
        match r {
            Ok(()) => !(content_length matches Some(l) && l > max_response_bytes),
            Err(e) => (content_length matches Some(l) && l > max_response_bytes) && e
                == YoutubeClientError::ResponseTooLarge { max_bytes: max_response_bytes },
        },
{
    match content_length {
        Some(length) => {
            if length > max_response_bytes as u64 {
                return Err(YoutubeClientError::ResponseTooLarge { max_bytes: max_response_bytes });
            }
            Ok(())
        },
        None => Ok(()),
    }
}

/// Reads a complete response: the body must fit the cap, the status must be
/// a success, and the body must be an envelope (`envelope` is what parsing
/// the body as one gave: the envelope or the parser's description of the
/// failure). An `ok` envelope gives its data (`null` when absent); any other
/// gives its error, or a generic one when it has none.
pub fn interpret_body(
    status: u16,
    reason: Option<String>,
    final_url: UrlParts,
    location: Option<String>,
    body: &[u8],
    envelope: Result<GasEnvelope, String>,
    max_response_bytes: usize,
) -> (r: Result<Json, YoutubeClientError>)
    ensures
        body@.len() > max_response_bytes ==> r == Err::<Json, YoutubeClientError>(
            YoutubeClientError::ResponseTooLarge { max_bytes: max_response_bytes },
        ),
        body@.len() <= max_response_bytes && !is_success(status) ==> (r matches Err(
            YoutubeClientError::UpstreamHttp { status: s, reason: rr, final_url: f, location: l, body: b },
        ) && s == status && rr == reason && f == final_url && l == location && b@ == body_preview(
            body@,
        )),
        body@.len() <= max_response_bytes && is_success(status) && envelope is Err ==> (r matches Err(
            YoutubeClientError::InvalidJson { source, preview },
        ) && source == envelope->Err_0 && preview@ == body_preview(body@)),
        (body@.len() <= max_response_bytes && is_success(status) && envelope is Ok
            && envelope->Ok_0.ok) ==> r == Ok::<Json, YoutubeClientError>(
            match envelope->Ok_0.data {
                Some(d) => d,
                None => Json::Null,
            },
        ),
        (body@.len() <= max_response_bytes && is_success(status) && envelope is Ok
            && !envelope->Ok_0.ok) ==> (r matches Err(YoutubeClientError::AppsScript(g)) && match envelope->Ok_0.error {
            Some(e) => g == e,
            None => g.code@ == "UNKNOWN_UPSTREAM_ERROR"@ && g.message@
                == "Apps Script returned ok=false without an error object"@ && g.details is None,
        }),
{
    if body.len() > max_response_bytes {
        return Err(YoutubeClientError::ResponseTooLarge { max_bytes: max_response_bytes });
    }
    if !(200 <= status && status <= 299) {
        return Err(
            YoutubeClientError::UpstreamHttp {
                status,
                reason,
                final_url,
                location,
                body: preview(body),
            },
        );
    }
    match envelope {
        Err(source) => Err(YoutubeClientError::InvalidJson { source, preview: preview(body) }),
        Ok(env) => {
            if env.ok {
                match env.data {
                    Some(d) => Ok(d),
                    None => Ok(Json::Null),
                }
            } else {
                match env.error {
                    Some(e) => Err(YoutubeClientError::AppsScript(e)),
                    None => Err(
                        YoutubeClientError::AppsScript(
                            GasError {
                                message: String::from_str(
                                    "Apps Script returned ok=false without an error object",
                                ),
                                code: String::from_str("UNKNOWN_UPSTREAM_ERROR"),
                                details: None,
                            },
                        ),
                    ),
                }
            }
        },
    }
}

/// The settings of the Apps Script client: where the web app is, the key it
/// is called with, and the limits and switches of the control plane.
pub struct YoutubeGasClient {
    web_app_url: UrlParts,
    api_key: String,
    expected_channel_handle: String,
    timeout_secs: u64,
    max_response_bytes: usize,
    allow_public_actions: bool,
}

impl YoutubeGasClient {
    pub closed spec fn spec_web_app_url(&self) -> UrlView {
        self.web_app_url@
    }

    pub closed spec fn spec_api_key(&self) -> Seq<char> {
        self.api_key@
    }

    pub closed spec fn spec_expected_channel_handle(&self) -> Seq<char> {
        self.expected_channel_handle@
    }

    pub closed spec fn spec_timeout_secs(&self) -> u64 {
        self.timeout_secs
    }

    pub closed spec fn spec_max_response_bytes(&self) -> usize {
        self.max_response_bytes
    }

    pub closed spec fn spec_allow_public_actions(&self) -> bool {
        self.allow_public_actions
    }

    pub fn new(config: &YoutubeConfig) -> (c: YoutubeGasClient)
        ensures
            c.spec_web_app_url() == config.web_app_url@,
            c.spec_api_key() == config.api_key@,
            c.spec_expected_channel_handle() == config.expected_channel_handle@,
            c.spec_timeout_secs() == config.timeout_secs,
            c.spec_max_response_bytes() == config.max_response_bytes,
            c.spec_allow_public_actions() == config.allow_public_actions,
    {
        YoutubeGasClient {
            web_app_url: config.web_app_url.duplicate(),
            api_key: config.api_key.clone(),
            expected_channel_handle: config.expected_channel_handle.clone(),
            timeout_secs: config.timeout_secs,
            max_response_bytes: config.max_response_bytes,
            allow_public_actions: config.allow_public_actions,
        }
    }

    pub fn web_app_url(&self) -> (r: &UrlParts)
        ensures
            r@ == self.spec_web_app_url(),
    {
        &self.web_app_url
    }

    pub fn expected_channel_handle(&self) -> (r: &str)
        ensures
            r@ == self.spec_expected_channel_handle(),
    {
        self.expected_channel_handle.as_str()
    }

    pub fn allow_public_actions(&self) -> (r: bool)
        ensures
            r == self.spec_allow_public_actions(),
    {
        self.allow_public_actions
    }

    pub fn timeout_secs(&self) -> (r: u64)
        ensures
            r == self.spec_timeout_secs(),
    {
        self.timeout_secs
    }

    pub fn max_response_bytes(&self) -> (r: usize)
        ensures
            r == self.spec_max_response_bytes(),
    {
        self.max_response_bytes
    }

    /// The deployment identifier in the web-app URL (`/macros/s/<id>/exec`).
    pub fn deployment_id(&self) -> (r: Option<String>)
        ensures
            opt_view(r) == deployment_id_of(self.spec_web_app_url().path),
    {
        deployment_id(self.web_app_url.path.as_str())
    }

    /// The JSON body posted to Apps Script for `action`: the checked caller
    /// fields, the action's name and the API key.
    pub fn request_body(&self, action: YoutubeAction, payload: Json, idempotency_key: Option<&str>) -> (r:
        Result<Vec<JsonMember>, YoutubeClientError>)
        ensures
            match r {
                Ok(ms) => {
                    let out = object_map(ms@);
                    &&& payload_issue(
                        action,
                        payload,
                        opt_str_view(idempotency_key),
                        self.spec_allow_public_actions(),
                    ) is None
                    &&& prepared_body(
                        action,
                        payload,
                        opt_str_view(idempotency_key),
                        out.remove("action"@).remove("apiKey"@),
                    )
                    &&& out.dom().contains("action"@) && is_str(out["action"@], action_name(action))
                    &&& out.dom().contains("apiKey"@) && is_str(out["apiKey"@], self.spec_api_key())
                },
                Err(e) => e matches YoutubeClientError::Validation(v) && payload_issue(
                    action,
                    payload,
                    opt_str_view(idempotency_key),
                    self.spec_allow_public_actions(),
                ) == Some(v@),
            },
    {
        let mut body = match prepare_payload(
            action,
            payload,
            idempotency_key,
            self.allow_public_actions,
        ) {
            Ok(ms) => ms,
            Err(v) => return Err(YoutubeClientError::Validation(v)),
        };
        let ghost prepared = object_map(body@);
        proof {
            crate::youtube::lemma_server_keys_distinct();
        }
        object_insert(&mut body, String::from_str("action"), Json::Str(String::from_str(action.as_str())));
        object_insert(&mut body, String::from_str("apiKey"), Json::Str(self.api_key.clone()));
        assert(object_map(body@).remove("action"@).remove("apiKey"@) =~= prepared);
        Ok(body)
    }

    /// The configuration summary returned to administrators: it confirms the
    /// key is present without exposing it or the full deployment URL.
    pub fn status_document(&self) -> (r: Vec<JsonMember>)
        ensures
            member_views(r@) == seq![
                ("configured"@, JsonView::Bool(true)),
                ("expectedChannelHandle"@, JsonView::Str(self.spec_expected_channel_handle())),
                ("deploymentId"@, str_or_null(deployment_id_of(self.spec_web_app_url().path))),
                ("publicActionsEnabled"@, JsonView::Bool(self.spec_allow_public_actions())),
                ("appsScriptApiKeyPresent"@, JsonView::Bool(true)),
                ("appsScriptApiKeyExposed"@, JsonView::Bool(false)),
            ],
    {
        let mut ms: Vec<JsonMember> = Vec::new();
        ms.push(member("configured", Json::Bool(true)));
        ms.push(member("expectedChannelHandle", Json::Str(self.expected_channel_handle.clone())));
        ms.push(member("deploymentId", str_or_null_json(self.deployment_id())));
        ms.push(member("publicActionsEnabled", Json::Bool(self.allow_public_actions)));
        ms.push(member("appsScriptApiKeyPresent", Json::Bool(true)));
        ms.push(member("appsScriptApiKeyExposed", Json::Bool(false)));
        let ghost want = seq![
            ("configured"@, JsonView::Bool(true)),
            ("expectedChannelHandle"@, JsonView::Str(self.spec_expected_channel_handle())),
            ("deploymentId"@, str_or_null(deployment_id_of(self.spec_web_app_url().path))),
            ("publicActionsEnabled"@, JsonView::Bool(self.spec_allow_public_actions())),
            ("appsScriptApiKeyPresent"@, JsonView::Bool(true)),
            ("appsScriptApiKeyExposed"@, JsonView::Bool(false)),
        ];
        assert(member_views(ms@) =~= want);
        ms
    }
}

/// The audit entry for one field: the field and its value when the request
/// has it.
pub open spec fn audit_entry(m: Map<Seq<char>, Json>, name: Seq<char>) -> Seq<(Seq<char>, JsonView)> {
    if m.dom().contains(name) {
        seq![(name, json_view(m[name]))]
    } else {
        Seq::empty()
    }
}

/// The redacted record of a request: `videoId`, `driveFileId`,
/// `playlistId`, `privacyStatus`, `repository` and `commit`, in this order and
/// where present; everything else (descriptions, tokens, keys, media) is left
/// out.
pub open spec fn audit_record(payload: Json) -> Seq<(Seq<char>, JsonView)> {
    match payload {
        Json::Object(ms) => {
            let m = object_map(ms@);
            audit_entry(m, "videoId"@) + audit_entry(m, "driveFileId"@) + audit_entry(
                m,
                "playlistId"@,
            ) + audit_entry(m, "privacyStatus"@) + audit_entry(m, "repository"@) + audit_entry(
                m,
                "commit"@,
            )
        },
        _ => Seq::empty(),
    }
}

fn push_audit_entry(out: &mut Vec<JsonMember>, ms: &Vec<JsonMember>, name: &str)
    ensures
        member_views(final(out)@) == member_views(old(out)@) + audit_entry(object_map(ms@), name@),
{
    match object_get(ms, name) {
        Some(v) => {
            let m = member(name, v.duplicate());
            let ghost before = out@;
            out.push(m);
            assert(member_views(out@) =~= member_views(before) + audit_entry(
                object_map(ms@),
                name@,
            ));
        },
        None => {
            assert(member_views(out@) =~= member_views(out@) + audit_entry(
                object_map(ms@),
                name@,
            ));
        },
    }
}

/// The fields of a request that may be published on the event bus.
pub fn redact_map_for_audit(payload: &Json) -> (r: Vec<JsonMember>)
    ensures
        member_views(r@) == audit_record(*payload),
{
    let mut out: Vec<JsonMember> = Vec::new();
    match payload {
        Json::Object(ms) => {
            assert(member_views(out@) =~= Seq::<(Seq<char>, JsonView)>::empty());
            push_audit_entry(&mut out, ms, "videoId");
            push_audit_entry(&mut out, ms, "driveFileId");
            push_audit_entry(&mut out, ms, "playlistId");
            push_audit_entry(&mut out, ms, "privacyStatus");
            push_audit_entry(&mut out, ms, "repository");
            push_audit_entry(&mut out, ms, "commit");
            assert(member_views(out@) =~= audit_record(*payload));
        },
        _ => {
            assert(member_views(out@) =~= audit_record(*payload));
        },
    }
    out
}

/// How many redirects an Apps Script call follows at most.
pub const MAX_REDIRECTS: usize = 5;

/// What the HTTP client does with a redirect.
#[derive(Clone, Copy, Debug, PartialEq, Eq, Structural)]
pub enum RedirectDecision {
    Follow,
    /// Return the redirect response itself.
    Stop,
    /// Fail the call: too many redirects.
    TooMany,
}

/// The hosts Google serves a web app's answer from.
pub open spec fn google_script_host(host: Seq<char>) -> bool {
    host == "script.google.com"@ || host == "script.googleusercontent.com"@
}

/// Redirects are followed only to the documented Google hosts, and at most
/// `MAX_REDIRECTS` times; a redirect anywhere else (such as the sign-in
/// page) is returned as it is.
pub fn redirect_decision(previous_redirects: usize, host: Option<&str>) -> (r: RedirectDecision)
    ensures
        previous_redirects >= MAX_REDIRECTS ==> r == RedirectDecision::TooMany,
        previous_redirects < MAX_REDIRECTS ==> r == match host {
            Some(h) => if google_script_host(h@) {
                RedirectDecision::Follow
            } else {
                RedirectDecision::Stop
            },
            None => RedirectDecision::Stop,
        },
{
    if previous_redirects >= MAX_REDIRECTS {
        return RedirectDecision::TooMany;
    }
    match host {
        Some(h) => {
            if same_text(h, "script.google.com") || same_text(h, "script.googleusercontent.com") {
                RedirectDecision::Follow
            } else {
                RedirectDecision::Stop
            }
        },
        None => RedirectDecision::Stop,
    }
}

/// The position of a field in the audit list, or -1 for any other field:
/// `videoId`, `driveFileId`, `playlistId`, `privacyStatus`, `repository`,
/// `commit`.
pub open spec fn audit_rank(k: Seq<char>) -> int {
    if k == "videoId"@ {
        0
    } else if k == "driveFileId"@ {
        1
    } else if k == "playlistId"@ {
        2
    } else if k == "privacyStatus"@ {
        3
    } else if k == "repository"@ {
        4
    } else if k == "commit"@ {
        5
    } else {
        -1
    }
}

/// What an audit record built from the first `t` listed fields of `m`
/// satisfies: only listed fields before `t`, each with its value from `m`,
/// in list order, and every such field that `m` has.
pub open spec fn audit_prefix_ok(r: Seq<(Seq<char>, JsonView)>, m: Map<Seq<char>, Json>, t: int) -> bool {
    &&& forall|i: int|
        0 <= i < r.len() ==> 0 <= #[trigger] audit_rank(r[i].0) < t && m.dom().contains(r[i].0)
            && r[i].1 == json_view(m[r[i].0])
    &&& forall|i: int, j: int|
        0 <= i < j < r.len() ==> #[trigger] audit_rank(r[i].0) < #[trigger] audit_rank(r[j].0)
    &&& forall|k: Seq<char>|
        0 <= #[trigger] audit_rank(k) < t && m.dom().contains(k) ==> r.contains(
            (k, json_view(m[k])),
        )
}

proof fn lemma_audit_step(r: Seq<(Seq<char>, JsonView)>, m: Map<Seq<char>, Json>, name: Seq<char>, t: int)
    requires
        0 <= t,
        audit_rank(name) == t,
        audit_prefix_ok(r, m, t),
    ensures
        audit_prefix_ok(r + audit_entry(m, name), m, t + 1),
{
    let e = audit_entry(m, name);
    let q = r + e;
    assert forall|i: int| 0 <= i < q.len() implies 0 <= #[trigger] audit_rank(q[i].0) < t + 1
        && m.dom().contains(q[i].0) && q[i].1 == json_view(m[q[i].0]) by {
        if i < r.len() {
            assert(q[i] == r[i]);
        }
    }
    assert forall|i: int, j: int| 0 <= i < j < q.len() implies #[trigger] audit_rank(q[i].0)
        < #[trigger] audit_rank(q[j].0) by {
        if j < r.len() {
            assert(q[i] == r[i]);
            assert(q[j] == r[j]);
        } else {
            assert(q[i] == r[i]);
            assert(audit_rank(r[i].0) < t);
        }
    }
    assert forall|k: Seq<char>| 0 <= #[trigger] audit_rank(k) < t + 1 && m.dom().contains(k) implies q.contains(
        (k, json_view(m[k])),
    ) by {
        if audit_rank(k) < t {
            let i = choose|i: int| 0 <= i < r.len() && r[i] == (k, json_view(m[k]));
            assert(q[i] == r[i]);
        } else {
            assert(k == name);
            assert(q[r.len() as int] == (k, json_view(m[k])));
        }
    }
}

/// The audit record of an object request holds exactly the listed fields
/// (`videoId`, `driveFileId`, `playlistId`, `privacyStatus`, `repository`,
/// `commit`) that the request has, each with the request's value for it,
/// in that order; no other field of the request reaches the event bus.
pub proof fn lemma_audit_record_is_redacted(payload: Json)
    requires
        payload is Object,
    ensures
        ({
            let m = object_map(payload->Object_0@);
            let r = audit_record(payload);
            &&& forall|i: int|
                0 <= i < r.len() ==> 0 <= #[trigger] audit_rank(r[i].0) < 6 && m.dom().contains(
                    r[i].0,
                ) && r[i].1 == json_view(m[r[i].0])
            &&& forall|i: int, j: int|
                0 <= i < j < r.len() ==> #[trigger] audit_rank(r[i].0) < #[trigger] audit_rank(
                    r[j].0,
                )
            &&& forall|k: Seq<char>|
                0 <= #[trigger] audit_rank(k) && m.dom().contains(k) ==> r.contains(
                    (k, json_view(m[k])),
                )
        }),
{
    reveal_strlit("videoId");
    reveal_strlit("driveFileId");
    reveal_strlit("playlistId");
    reveal_strlit("privacyStatus");
    reveal_strlit("repository");
    reveal_strlit("commit");
    let m = object_map(payload->Object_0@);
    assert(audit_rank("videoId"@) == 0);
    assert(audit_rank("driveFileId"@) == 1) by {
        assert("driveFileId"@[0] != "videoId"@[0]);
    }
    assert(audit_rank("playlistId"@) == 2) by {
        assert("playlistId"@[0] != "videoId"@[0]);
        assert("playlistId"@[0] != "driveFileId"@[0]);
    }
    assert(audit_rank("privacyStatus"@) == 3) by {
        assert("privacyStatus"@[0] != "videoId"@[0]);
        assert("privacyStatus"@[0] != "driveFileId"@[0]);
        assert("privacyStatus"@.len() != "playlistId"@.len());
    }
    assert(audit_rank("repository"@) == 4) by {
        assert("repository"@[0] != "videoId"@[0]);
        assert("repository"@[0] != "driveFileId"@[0]);
        assert("repository"@[0] != "playlistId"@[0]);
        assert("repository"@[0] != "privacyStatus"@[0]);
    }
    assert(audit_rank("commit"@) == 5) by {
        assert("commit"@[0] != "videoId"@[0]);
        assert("commit"@[0] != "driveFileId"@[0]);
        assert("commit"@[0] != "playlistId"@[0]);
        assert("commit"@[0] != "privacyStatus"@[0]);
        assert("commit"@[0] != "repository"@[0]);
    }
    let r0 = Seq::<(Seq<char>, JsonView)>::empty();
    assert(audit_prefix_ok(r0, m, 0));
    lemma_audit_step(r0, m, "videoId"@, 0);
    let r1 = r0 + audit_entry(m, "videoId"@);
    lemma_audit_step(r1, m, "driveFileId"@, 1);
    let r2 = r1 + audit_entry(m, "driveFileId"@);
    lemma_audit_step(r2, m, "playlistId"@, 2);
    let r3 = r2 + audit_entry(m, "playlistId"@);
    lemma_audit_step(r3, m, "privacyStatus"@, 3);
    let r4 = r3 + audit_entry(m, "privacyStatus"@);
    lemma_audit_step(r4, m, "repository"@, 4);
    let r5 = r4 + audit_entry(m, "repository"@);
    lemma_audit_step(r5, m, "commit"@, 5);
    let r6 = r5 + audit_entry(m, "commit"@);
    assert(r1 =~= audit_entry(m, "videoId"@));
    assert(audit_record(payload) =~= r6);
    assert forall|k: Seq<char>| 0 <= #[trigger] audit_rank(k) implies audit_rank(k) < 6 by {}
}

} // verus!
