//! Policy layer for the Apps Script YouTube web app: the allow-list of
//! actions, the request bodies sent to Apps Script and the checks that keep
//! uploads private and publication explicit.
use vstd::prelude::*;

use crate::json::{object_get, object_insert, object_map, object_remove, is_str, Json, JsonMember};
use crate::text::{byte_len, byte_len_capped, same_text, trim, trimmed, is_ascii_graphic};

verus! {

#[derive(Clone, Copy, Debug, PartialEq, Eq, Structural)]
pub enum YoutubeAction {
    Channel,
    Videos,
    Analytics,
    ExportAnalytics,
    Jobs,
    StartUpload,
    ProcessUpload,
    ProcessAllUploads,
    PublishVideo,
    UpdateVideo,
    CreatePlaylist,
    AddToPlaylist,
    IngestGmail,
    SendDigest,
    PartnerStatus,
    PartnerOwners,
    PartnerClaims,
    AdminStatus,
    WorkspaceUsers,
}

/// The name of an action in routes and in the Apps Script API.
pub open spec fn action_name(a: YoutubeAction) -> Seq<char> {
    match a {
        YoutubeAction::Channel => "channel"@,
        YoutubeAction::Videos => "videos"@,
        YoutubeAction::Analytics => "analytics"@,
        YoutubeAction::ExportAnalytics => "exportAnalytics"@,
        YoutubeAction::Jobs => "jobs"@,
        YoutubeAction::StartUpload => "startUpload"@,
        YoutubeAction::ProcessUpload => "processUpload"@,
        YoutubeAction::ProcessAllUploads => "processAllUploads"@,
        YoutubeAction::PublishVideo => "publishVideo"@,
        YoutubeAction::UpdateVideo => "updateVideo"@,
        YoutubeAction::CreatePlaylist => "createPlaylist"@,
        YoutubeAction::AddToPlaylist => "addToPlaylist"@,
        YoutubeAction::IngestGmail => "ingestGmail"@,
        YoutubeAction::SendDigest => "sendDigest"@,
        YoutubeAction::PartnerStatus => "partnerStatus"@,
        YoutubeAction::PartnerOwners => "partnerOwners"@,
        YoutubeAction::PartnerClaims => "partnerClaims"@,
        YoutubeAction::AdminStatus => "adminStatus"@,
        YoutubeAction::WorkspaceUsers => "workspaceUsers"@,
    }
}

/// The actions that change channel or Drive state.
pub open spec fn is_mutating(a: YoutubeAction) -> bool {
    match a {
        YoutubeAction::ExportAnalytics | YoutubeAction::StartUpload | YoutubeAction::ProcessUpload
        | YoutubeAction::ProcessAllUploads | YoutubeAction::PublishVideo
        | YoutubeAction::UpdateVideo | YoutubeAction::CreatePlaylist | YoutubeAction::AddToPlaylist
        | YoutubeAction::IngestGmail | YoutubeAction::SendDigest => true,
        _ => false,
    }
}

impl YoutubeAction {
    /// The action named `value`, if it is on the allow-list.
    pub fn parse(value: &str) -> (r: Option<YoutubeAction>)
        ensures
            match r {
                Some(a) => action_name(a) == value@,
                None => forall|a: YoutubeAction| action_name(a) != value@,
            },
    {
        if same_text(value, "channel") {
            Some(YoutubeAction::Channel)
        } else if same_text(value, "videos") {
            Some(YoutubeAction::Videos)
        } else if same_text(value, "analytics") {
            Some(YoutubeAction::Analytics)
        } else if same_text(value, "exportAnalytics") {
            Some(YoutubeAction::ExportAnalytics)
        } else if same_text(value, "jobs") {
            Some(YoutubeAction::Jobs)
        } else if same_text(value, "startUpload") {
            Some(YoutubeAction::StartUpload)
        } else if same_text(value, "processUpload") {
            Some(YoutubeAction::ProcessUpload)
        } else if same_text(value, "processAllUploads") {
            Some(YoutubeAction::ProcessAllUploads)
        } else if same_text(value, "publishVideo") {
            Some(YoutubeAction::PublishVideo)
        } else if same_text(value, "updateVideo") {
            Some(YoutubeAction::UpdateVideo)
        } else if same_text(value, "createPlaylist") {
            Some(YoutubeAction::CreatePlaylist)
        } else if same_text(value, "addToPlaylist") {
            Some(YoutubeAction::AddToPlaylist)
        } else if same_text(value, "ingestGmail") {
            Some(YoutubeAction::IngestGmail)
        } else if same_text(value, "sendDigest") {
            Some(YoutubeAction::SendDigest)
        } else if same_text(value, "partnerStatus") {
            Some(YoutubeAction::PartnerStatus)
        } else if same_text(value, "partnerOwners") {
            Some(YoutubeAction::PartnerOwners)
        } else if same_text(value, "partnerClaims") {
            Some(YoutubeAction::PartnerClaims)
        } else if same_text(value, "adminStatus") {
            Some(YoutubeAction::AdminStatus)
        } else if same_text(value, "workspaceUsers") {
            Some(YoutubeAction::WorkspaceUsers)
        } else {
            None
        }
    }

    pub fn as_str(self) -> (s: &'static str)
        ensures
            s@ == action_name(self),
    {
        match self {
            YoutubeAction::Channel => "channel",
            YoutubeAction::Videos => "videos",
            YoutubeAction::Analytics => "analytics",
            YoutubeAction::ExportAnalytics => "exportAnalytics",
            YoutubeAction::Jobs => "jobs",
            YoutubeAction::StartUpload => "startUpload",
            YoutubeAction::ProcessUpload => "processUpload",
            YoutubeAction::ProcessAllUploads => "processAllUploads",
            YoutubeAction::PublishVideo => "publishVideo",
            YoutubeAction::UpdateVideo => "updateVideo",
            YoutubeAction::CreatePlaylist => "createPlaylist",
            YoutubeAction::AddToPlaylist => "addToPlaylist",
            YoutubeAction::IngestGmail => "ingestGmail",
            YoutubeAction::SendDigest => "sendDigest",
            YoutubeAction::PartnerStatus => "partnerStatus",
            YoutubeAction::PartnerOwners => "partnerOwners",
            YoutubeAction::PartnerClaims => "partnerClaims",
            YoutubeAction::AdminStatus => "adminStatus",
            YoutubeAction::WorkspaceUsers => "workspaceUsers",
        }
    }

    pub fn is_mutating(self) -> (b: bool)
        ensures
            b == is_mutating(self),
    {
        match self {
            YoutubeAction::ExportAnalytics | YoutubeAction::StartUpload
            | YoutubeAction::ProcessUpload | YoutubeAction::ProcessAllUploads
            | YoutubeAction::PublishVideo | YoutubeAction::UpdateVideo
            | YoutubeAction::CreatePlaylist | YoutubeAction::AddToPlaylist
            | YoutubeAction::IngestGmail | YoutubeAction::SendDigest => true,
            _ => false,
        }
    }
}

/// Distinct actions have distinct names, so parsing an action's name gives
/// that action back.
pub proof fn lemma_action_names_distinct(a: YoutubeAction, b: YoutubeAction)
    requires
        action_name(a) == action_name(b),
    ensures
        a == b,
{
    reveal_strlit("channel");
    reveal_strlit("videos");
    reveal_strlit("analytics");
    reveal_strlit("exportAnalytics");
    reveal_strlit("jobs");
    reveal_strlit("startUpload");
    reveal_strlit("processUpload");
    reveal_strlit("processAllUploads");
    reveal_strlit("publishVideo");
    reveal_strlit("updateVideo");
    reveal_strlit("createPlaylist");
    reveal_strlit("addToPlaylist");
    reveal_strlit("ingestGmail");
    reveal_strlit("sendDigest");
    reveal_strlit("partnerStatus");
    reveal_strlit("partnerOwners");
    reveal_strlit("partnerClaims");
    reveal_strlit("adminStatus");
    reveal_strlit("workspaceUsers");
    if a != b {
        let x = action_name(a);
        let y = action_name(b);
        assert(x.len() != y.len() || x[0] != y[0] || x[1] != y[1] || x[2] != y[2] || x[3] != y[3]
            || x[4] != y[4] || x[5] != y[5] || x[6] != y[6] || x[7] != y[7]);
    }
}

/// A request-body field that the policy reads as a string.
#[derive(Clone, Copy, Debug, PartialEq, Eq, Structural)]
pub enum Field {
    DriveFileId,
    Title,
    PrivacyStatus,
    IdempotencyKey,
    VideoId,
    Confirmation,
}

pub open spec fn field_name(f: Field) -> Seq<char> {
    match f {
        Field::DriveFileId => "driveFileId"@,
        Field::Title => "title"@,
        Field::PrivacyStatus => "privacyStatus"@,
        Field::IdempotencyKey => "idempotencyKey"@,
        Field::VideoId => "videoId"@,
        Field::Confirmation => "confirmation"@,
    }
}

impl Field {
    pub fn name(self) -> (s: &'static str)
        ensures
            s@ == field_name(self),
    {
        match self {
            Field::DriveFileId => "driveFileId",
            Field::Title => "title",
            Field::PrivacyStatus => "privacyStatus",
            Field::IdempotencyKey => "idempotencyKey",
            Field::VideoId => "videoId",
            Field::Confirmation => "confirmation",
        }
    }
}

/// Why a request for the Apps Script web app is refused before it is sent.
#[derive(Debug)]
pub enum ValidationError {
    NotObject,
    MissingIdempotencyKey,
    IdempotencyKeyLength,
    IdempotencyKeyCharacters,
    Required(Field),
    EmptyField(Field),
    NotString(Field),
    RightsNotConfirmed,
    UploadNotPrivate,
    IdempotencyKeyMismatch,
    InvalidPrivacy,
    PublicActionsDisabled,
    /// The confirmation phrase differs from the expected one, given here.
    ConfirmationMismatch(String),
    PublicPlaylistsDisabled,
}

/// What a validation error says, with its text as characters.
pub enum ValidationIssue {
    NotObject,
    MissingIdempotencyKey,
    IdempotencyKeyLength,
    IdempotencyKeyCharacters,
    Required(Field),
    EmptyField(Field),
    NotString(Field),
    RightsNotConfirmed,
    UploadNotPrivate,
    IdempotencyKeyMismatch,
    InvalidPrivacy,
    PublicActionsDisabled,
    ConfirmationMismatch(Seq<char>),
    PublicPlaylistsDisabled,
}

impl View for ValidationError {
    type V = ValidationIssue;

    open spec fn view(&self) -> ValidationIssue {
        match self {
            ValidationError::NotObject => ValidationIssue::NotObject,
            ValidationError::MissingIdempotencyKey => ValidationIssue::MissingIdempotencyKey,
            ValidationError::IdempotencyKeyLength => ValidationIssue::IdempotencyKeyLength,
            ValidationError::IdempotencyKeyCharacters => ValidationIssue::IdempotencyKeyCharacters,
            ValidationError::Required(f) => ValidationIssue::Required(*f),
            ValidationError::EmptyField(f) => ValidationIssue::EmptyField(*f),
            ValidationError::NotString(f) => ValidationIssue::NotString(*f),
            ValidationError::RightsNotConfirmed => ValidationIssue::RightsNotConfirmed,
            ValidationError::UploadNotPrivate => ValidationIssue::UploadNotPrivate,
            ValidationError::IdempotencyKeyMismatch => ValidationIssue::IdempotencyKeyMismatch,
            ValidationError::InvalidPrivacy => ValidationIssue::InvalidPrivacy,
            ValidationError::PublicActionsDisabled => ValidationIssue::PublicActionsDisabled,
            ValidationError::ConfirmationMismatch(e) => ValidationIssue::ConfirmationMismatch(e@),
            ValidationError::PublicPlaylistsDisabled => ValidationIssue::PublicPlaylistsDisabled,
        }
    }
}

/// Why an idempotency key is refused: it must have 1 to 200 bytes, all
/// printable ASCII other than the space.
pub open spec fn key_issue(k: Seq<char>) -> Option<ValidationIssue> {
    if k.len() == 0 || byte_len(k) > 200 {
        Some(ValidationIssue::IdempotencyKeyLength)
    } else if !(forall|i: int| 0 <= i < k.len() ==> #[trigger] is_ascii_graphic(k[i])) {
        Some(ValidationIssue::IdempotencyKeyCharacters)
    } else {
        None
    }
}

pub fn validate_idempotency_key(value: &str) -> (r: Result<(), ValidationError>)
    ensures
        match r {
            Ok(()) => key_issue(value@) is None,
            Err(e) => key_issue(value@) == Some(e@),
        },
{
    let n = value.unicode_len();
    if n == 0 || byte_len_capped(value, 201) > 200 {
        return Err(ValidationError::IdempotencyKeyLength);
    }
    let mut i: usize = 0;
    while i < n
        invariant
            n == value@.len(),
            n > 0,
            byte_len(value@) <= 200,
            i <= n,
            forall|k: int| 0 <= k < i ==> #[trigger] is_ascii_graphic(value@[k]),
        decreases n - i,
    {
        let c = value.get_char(i) as u32;
        if !(0x21 <= c && c <= 0x7E) {
            assert(!is_ascii_graphic(value@[i as int]));
            return Err(ValidationError::IdempotencyKeyCharacters);
        }
        i = i + 1;
    }
    Ok(())
}

/// A field read as an optional string: absent or `null` is `None`; a string
/// gives its trimmed text, which must not be empty; anything else is refused.
pub open spec fn optional_field(m: Map<Seq<char>, Json>, f: Field) -> Result<
    Option<Seq<char>>,
    ValidationIssue,
> {
    if !m.dom().contains(field_name(f)) {
        Ok(None)
    } else {
        match m[field_name(f)] {
            Json::Null => Ok(None),
            Json::Str(v) => if trimmed(v@).len() > 0 {
                Ok(Some(trimmed(v@)))
            } else {
                Err(ValidationIssue::EmptyField(f))
            },
            _ => Err(ValidationIssue::NotString(f)),
        }
    }
}

/// A field that must hold a non-blank string.
pub open spec fn required_field(m: Map<Seq<char>, Json>, f: Field) -> Result<Seq<char>, ValidationIssue> {
    match optional_field(m, f) {
        Err(e) => Err(e),
        Ok(None) => Err(ValidationIssue::Required(f)),
        Ok(Some(v)) => Ok(v),
    }
}

pub fn optional_string(object: &Vec<JsonMember>, field: Field) -> (r: Result<
    Option<String>,
    ValidationError,
>)
    ensures
        match r {
            Ok(Some(v)) => optional_field(object_map(object@), field) == Ok::<
                Option<Seq<char>>,
                ValidationIssue,
            >(Some(v@)),
            Ok(None) => optional_field(object_map(object@), field) == Ok::<
                Option<Seq<char>>,
                ValidationIssue,
            >(None),
            Err(e) => optional_field(object_map(object@), field) == Err::<
                Option<Seq<char>>,
                ValidationIssue,
            >(e@),
        },
{
    match object_get(object, field.name()) {
        None => Ok(None),
        Some(Json::Null) => Ok(None),
        Some(Json::Str(value)) => {
            let t = trim(value.as_str());
            if t.as_str().unicode_len() > 0 {
                Ok(Some(t))
            } else {
                Err(ValidationError::EmptyField(field))
            }
        },
        Some(_) => Err(ValidationError::NotString(field)),
    }
}

pub fn require_non_empty_string(object: &Vec<JsonMember>, field: Field) -> (r: Result<
    String,
    ValidationError,
>)
    ensures
        match r {
            Ok(v) => required_field(object_map(object@), field) == Ok::<Seq<char>, ValidationIssue>(
                v@,
            ),
            Err(e) => required_field(object_map(object@), field) == Err::<
                Seq<char>,
                ValidationIssue,
            >(e@),
        },
{
    match optional_string(object, field) {
        Ok(Some(v)) => Ok(v),
        Ok(None) => Err(ValidationError::Required(field)),
        Err(e) => Err(e),
    }
}

/// The members a request body stands for: `null` is the empty object, an
/// object its map; anything else is not a request body.
pub open spec fn payload_object(payload: Json) -> Option<Map<Seq<char>, Json>> {
    match payload {
        Json::Null => Some(Map::empty()),
        Json::Object(ms) => Some(object_map(ms@)),
        _ => None,
    }
}

/// The body as the caller sent it, without the `action` and `apiKey` fields,
/// which only the server sets.
pub open spec fn caller_fields(m: Map<Seq<char>, Json>) -> Map<Seq<char>, Json> {
    m.remove("action"@).remove("apiKey"@)
}

/// The privacy statuses YouTube knows.
pub open spec fn known_privacy(p: Seq<char>) -> bool {
    p == "private"@ || p == "unlisted"@ || p == "public"@
}

/// The upper-case form of a known privacy status.
pub open spec fn privacy_upper(p: Seq<char>) -> Seq<char> {
    if p == "private"@ {
        "PRIVATE"@
    } else if p == "unlisted"@ {
        "UNLISTED"@
    } else {
        "PUBLIC"@
    }
}

/// The phrase that confirms publishing `video_id` with privacy `p`.
pub open spec fn confirmation_phrase(video_id: Seq<char>, p: Seq<char>) -> Seq<char> {
    "PUBLISH "@ + video_id + " AS "@ + privacy_upper(p)
}

/// The checks of one action on the caller's fields.
pub open spec fn action_issue(
    action: YoutubeAction,
    m: Map<Seq<char>, Json>,
    key: Option<Seq<char>>,
    allow_public_actions: bool,
) -> Option<ValidationIssue> {
    match action {
        YoutubeAction::StartUpload => match required_field(m, Field::DriveFileId) {
            Err(e) => Some(e),
            Ok(_) => match required_field(m, Field::Title) {
                Err(e) => Some(e),
                Ok(_) => if !(m.dom().contains("rightsConfirmed"@) && m["rightsConfirmed"@]
                    == Json::Bool(true)) {
                    Some(ValidationIssue::RightsNotConfirmed)
                } else {
                    match optional_field(m, Field::PrivacyStatus) {
                        Err(e) => Some(e),
                        Ok(privacy) => if privacy is Some && privacy.unwrap() != "private"@ {
                            Some(ValidationIssue::UploadNotPrivate)
                        } else {
                            match optional_field(m, Field::IdempotencyKey) {
                                Err(e) => Some(e),
                                Ok(existing) => if existing is Some && Some(existing.unwrap())
                                    != key {
                                    Some(ValidationIssue::IdempotencyKeyMismatch)
                                } else {
                                    None
                                },
                            }
                        },
                    }
                },
            },
        },
        YoutubeAction::PublishVideo => match required_field(m, Field::VideoId) {
            Err(e) => Some(e),
            Ok(video_id) => match required_field(m, Field::PrivacyStatus) {
                Err(e) => Some(e),
                Ok(privacy) => if !known_privacy(privacy) {
                    Some(ValidationIssue::InvalidPrivacy)
                } else if privacy != "private"@ && !allow_public_actions {
                    Some(ValidationIssue::PublicActionsDisabled)
                } else {
                    match required_field(m, Field::Confirmation) {
                        Err(e) => Some(e),
                        Ok(confirmation) => if confirmation != confirmation_phrase(
                            video_id,
                            privacy,
                        ) {
                            Some(
                                ValidationIssue::ConfirmationMismatch(
                                    confirmation_phrase(video_id, privacy),
                                ),
                            )
                        } else {
                            None
                        },
                    }
                },
            },
        },
        YoutubeAction::CreatePlaylist => match required_field(m, Field::Title) {
            Err(e) => Some(e),
            Ok(_) => match optional_field(m, Field::PrivacyStatus) {
                Err(e) => Some(e),
                Ok(privacy) => if privacy is Some && privacy.unwrap() != "private"@
                    && !allow_public_actions {
                    Some(ValidationIssue::PublicPlaylistsDisabled)
                } else {
                    None
                },
            },
        },
        _ => None,
    }
}

/// Why a request body is refused, or `None` when it is accepted: it must be
/// an object (or `null`); a mutating action needs a valid idempotency key;
/// then the action's own checks apply.
pub open spec fn payload_issue(
    action: YoutubeAction,
    payload: Json,
    key: Option<Seq<char>>,
    allow_public_actions: bool,
) -> Option<ValidationIssue> {
    match payload_object(payload) {
        None => Some(ValidationIssue::NotObject),
        Some(m0) => {
            let m = caller_fields(m0);
            if is_mutating(action) && key is None {
                Some(ValidationIssue::MissingIdempotencyKey)
            } else if is_mutating(action) && key_issue(key.unwrap()) is Some {
                key_issue(key.unwrap())
            } else {
                action_issue(action, m, key, allow_public_actions)
            }
        },
    }
}

/// `m` without the fields the server fills in for `action`.
pub open spec fn without_server_fields(action: YoutubeAction, m: Map<Seq<char>, Json>) -> Map<
    Seq<char>,
    Json,
> {
    let a = if is_mutating(action) {
        m.remove("controlRequestId"@)
    } else {
        m
    };
    if action == YoutubeAction::StartUpload {
        a.remove("idempotencyKey"@)
    } else {
        a
    }
}

/// The body sent for an accepted request: the caller's fields, except that a
/// mutating action carries the idempotency key as `controlRequestId`, and an
/// upload also as `idempotencyKey`.
pub open spec fn prepared_body(
    action: YoutubeAction,
    payload: Json,
    key: Option<Seq<char>>,
    out: Map<Seq<char>, Json>,
) -> bool {
    let m = caller_fields(payload_object(payload).unwrap());
    &&& without_server_fields(action, out) == without_server_fields(action, m)
    &&& is_mutating(action) ==> out.dom().contains("controlRequestId"@) && is_str(
        out["controlRequestId"@],
        key.unwrap(),
    )
    &&& action == YoutubeAction::StartUpload ==> out.dom().contains("idempotencyKey"@) && is_str(
        out["idempotencyKey"@],
        key.unwrap(),
    )
}

/// The view of an optional text argument.
pub open spec fn opt_str_view(o: Option<&str>) -> Option<Seq<char>> {
    match o {
        Some(s) => Some(s@),
        None => None,
    }
}

fn privacy_upper_str(p: &str) -> (r: &'static str)
    requires
        known_privacy(p@),
    ensures
        r@ == privacy_upper(p@),
{
    if same_text(p, "private") {
        "PRIVATE"
    } else if same_text(p, "unlisted") {
        "UNLISTED"
    } else {
        "PUBLIC"
    }
}

/// The names of the fields the server sets differ from each other.
pub proof fn lemma_server_keys_distinct()
    ensures
        "controlRequestId"@ != "action"@,
        "controlRequestId"@ != "apiKey"@,
        "idempotencyKey"@ != "action"@,
        "idempotencyKey"@ != "apiKey"@,
        "idempotencyKey"@ != "controlRequestId"@,
        "action"@ != "apiKey"@,
{
    reveal_strlit("controlRequestId");
    reveal_strlit("idempotencyKey");
    reveal_strlit("action");
    reveal_strlit("apiKey");
    assert("controlRequestId"@.len() != "action"@.len());
    assert("controlRequestId"@.len() != "apiKey"@.len());
    assert("idempotencyKey"@.len() != "action"@.len());
    assert("idempotencyKey"@.len() != "apiKey"@.len());
    assert("idempotencyKey"@[0] != "controlRequestId"@[0]);
    assert("action"@[1] != "apiKey"@[1]);
}

/// Checks a request for `action` and gives the body to send to Apps Script,
/// without its `action` and `apiKey` fields.
pub fn prepare_payload(
    action: YoutubeAction,
    payload: Json,
    idempotency_key: Option<&str>,
    allow_public_actions: bool,
) -> (r: Result<Vec<JsonMember>, ValidationError>)
    ensures
        match r {
            Ok(ms) => {
                &&& payload_issue(action, payload, opt_str_view(idempotency_key), allow_public_actions)
                    is None
                &&& prepared_body(action, payload, opt_str_view(idempotency_key), object_map(ms@))
                &&& !object_map(ms@).dom().contains("action"@)
                &&& !object_map(ms@).dom().contains("apiKey"@)
            },
            Err(e) => payload_issue(action, payload, opt_str_view(idempotency_key), allow_public_actions)
                == Some(e@),
        },
{
    let ghost key = opt_str_view(idempotency_key);
    let ghost original = payload;
    let members = match payload {
        Json::Null => Vec::new(),
        Json::Object(ms) => ms,
        _ => return Err(ValidationError::NotObject),
    };
    assert(payload_object(original) == Some(object_map(members@))) by {
        if original is Null {
            assert(object_map(members@) =~= Map::<Seq<char>, Json>::empty());
        }
    }
    let members = object_remove(members, "action");
    let mut object = object_remove(members, "apiKey");
    let ghost m = object_map(object@);
    assert(m == caller_fields(payload_object(original).unwrap()));
    if action.is_mutating() {
        let k = match idempotency_key {
            Some(k) => k,
            None => return Err(ValidationError::MissingIdempotencyKey),
        };
        match validate_idempotency_key(k) {
            Ok(()) => {},
            Err(e) => return Err(e),
        }
        object_insert(&mut object, String::from_str("controlRequestId"), Json::Str(k.to_owned()));
    }
    proof {
        lemma_server_keys_distinct();
    }
    let ghost cur = object_map(object@);
    assert(without_server_fields(action, cur) =~= without_server_fields(action, m));
    // Every field the checks read is as the caller sent it.
    assert(forall|f: Field| optional_field(cur, f) == optional_field(m, f)) by {
        assert forall|f: Field| optional_field(cur, f) == optional_field(m, f) by {
            assert(field_name(f) != "controlRequestId"@) by {
                reveal_strlit("controlRequestId");
                reveal_strlit("driveFileId");
                reveal_strlit("title");
                reveal_strlit("privacyStatus");
                reveal_strlit("idempotencyKey");
                reveal_strlit("videoId");
                reveal_strlit("confirmation");
                assert(field_name(f).len() != 16 || field_name(f)[0] != 'c' || field_name(f)[1]
                    != 'o');
            }
        }
    }
    assert("rightsConfirmed"@ != "controlRequestId"@) by {
        reveal_strlit("controlRequestId");
        reveal_strlit("rightsConfirmed");
        assert("rightsConfirmed"@[0] != "controlRequestId"@[0]);
    }
    match action {
        YoutubeAction::StartUpload => {
            match require_non_empty_string(&object, Field::DriveFileId) {
                Ok(_) => {},
                Err(e) => return Err(e),
            }
            match require_non_empty_string(&object, Field::Title) {
                Ok(_) => {},
                Err(e) => return Err(e),
            }
            let confirmed = match object_get(&object, "rightsConfirmed") {
                Some(Json::Bool(b)) => *b,
                _ => false,
            };
            if !confirmed {
                return Err(ValidationError::RightsNotConfirmed);
            }
            match optional_string(&object, Field::PrivacyStatus) {
                Ok(Some(status)) => {
                    if !same_text(status.as_str(), "private") {
                        return Err(ValidationError::UploadNotPrivate);
                    }
                },
                Ok(None) => {},
                Err(e) => return Err(e),
            }
            let header_key = match idempotency_key {
                Some(k) => k,
                None => return Err(ValidationError::MissingIdempotencyKey),
            };
            match optional_string(&object, Field::IdempotencyKey) {
                Ok(Some(existing)) => {
                    if !same_text(existing.as_str(), header_key) {
                        return Err(ValidationError::IdempotencyKeyMismatch);
                    }
                },
                Ok(None) => {},
                Err(e) => return Err(e),
            }
            let ghost before = object_map(object@);
            object_insert(&mut object, String::from_str("idempotencyKey"), Json::Str(header_key.to_owned()));
            assert(without_server_fields(action, object_map(object@)) =~= without_server_fields(
                action,
                before,
            ));
        },
        YoutubeAction::PublishVideo => {
            let video_id = match require_non_empty_string(&object, Field::VideoId) {
                Ok(v) => v,
                Err(e) => return Err(e),
            };
            let privacy = match require_non_empty_string(&object, Field::PrivacyStatus) {
                Ok(v) => v,
                Err(e) => return Err(e),
            };
            let p = privacy.as_str();
            if !(same_text(p, "private") || same_text(p, "unlisted") || same_text(p, "public")) {
                return Err(ValidationError::InvalidPrivacy);
            }
            if !same_text(p, "private") && !allow_public_actions {
                return Err(ValidationError::PublicActionsDisabled);
            }
            let expected = String::from_str("PUBLISH ").concat(video_id.as_str()).concat(
                " AS ",
            ).concat(privacy_upper_str(p));
            let confirmation = match require_non_empty_string(&object, Field::Confirmation) {
                Ok(v) => v,
                Err(e) => return Err(e),
            };
            if !same_text(confirmation.as_str(), expected.as_str()) {
                return Err(ValidationError::ConfirmationMismatch(expected));
            }
        },
        YoutubeAction::CreatePlaylist => {
            match require_non_empty_string(&object, Field::Title) {
                Ok(_) => {},
                Err(e) => return Err(e),
            }
            match optional_string(&object, Field::PrivacyStatus) {
                Ok(Some(p)) => {
                    if !same_text(p.as_str(), "private") && !allow_public_actions {
                        return Err(ValidationError::PublicPlaylistsDisabled);
                    }
                },
                Ok(None) => {},
                Err(e) => return Err(e),
            }
        },
        _ => {},
    }
    Ok(object)
}

/// An accepted upload stays private: the caller confirmed the rights, any
/// privacy status given is `private`, and any idempotency key in the body is
/// the header's key.
pub proof fn lemma_uploads_stay_private(payload: Json, key: Option<Seq<char>>, allow_public_actions: bool)
    requires
        payload_issue(YoutubeAction::StartUpload, payload, key, allow_public_actions) is None,
    ensures
        ({
            let m = caller_fields(payload_object(payload).unwrap());
            &&& m.dom().contains("rightsConfirmed"@) && m["rightsConfirmed"@] == Json::Bool(true)
            &&& match optional_field(m, Field::PrivacyStatus) {
                Ok(Some(p)) => p == "private"@,
                Ok(None) => true,
                Err(_) => false,
            }
            &&& match optional_field(m, Field::IdempotencyKey) {
                Ok(Some(k)) => key == Some(k),
                Ok(None) => true,
                Err(_) => false,
            }
            &&& key is Some
        }),
{
}

/// Every mutating action needs an idempotency key.
pub proof fn lemma_mutating_actions_need_key(action: YoutubeAction, payload: Json, allow_public_actions: bool)
    requires
        is_mutating(action),
        payload_object(payload) is Some,
    ensures
        payload_issue(action, payload, None, allow_public_actions) == Some(
            ValidationIssue::MissingIdempotencyKey,
        ),
{
}

/// Publishing needs the exact confirmation phrase, and a public or unlisted
/// status needs the server's switch.
pub proof fn lemma_publication_needs_switch_and_phrase(
    payload: Json,
    key: Option<Seq<char>>,
    allow_public_actions: bool,
)
    requires
        payload_issue(YoutubeAction::PublishVideo, payload, key, allow_public_actions) is None,
    ensures
        ({
            let m = caller_fields(payload_object(payload).unwrap());
            &&& required_field(m, Field::VideoId) is Ok
            &&& required_field(m, Field::PrivacyStatus) matches Ok(p) && known_privacy(p) && (p
                != "private"@ ==> allow_public_actions)
            &&& required_field(m, Field::Confirmation) == Ok::<Seq<char>, ValidationIssue>(
                confirmation_phrase(
                    required_field(m, Field::VideoId)->Ok_0,
                    required_field(m, Field::PrivacyStatus)->Ok_0,
                ),
            )
        }),
{
}

/// A playlist that is not private needs the server's switch.
pub proof fn lemma_public_playlists_need_switch(payload: Json, key: Option<Seq<char>>, allow_public_actions: bool)
    requires
        payload_issue(YoutubeAction::CreatePlaylist, payload, key, allow_public_actions) is None,
        optional_field(caller_fields(payload_object(payload).unwrap()), Field::PrivacyStatus) matches Ok(
            Some(p),
        ) && p != "private"@,
    ensures
        allow_public_actions,
{
}

/// The ten actions that change channel or Drive state each need an
/// idempotency key: without one, any object request is refused with
/// `MissingIdempotencyKey`; an accepted request carries the key as
/// `controlRequestId`.
pub proof fn lemma_listed_mutating_actions_need_key(
    action: YoutubeAction,
    payload: Json,
    key: Seq<char>,
    allow_public_actions: bool,
    out: Map<Seq<char>, Json>,
)
    requires
        action == YoutubeAction::ExportAnalytics || action == YoutubeAction::StartUpload || action
            == YoutubeAction::ProcessUpload || action == YoutubeAction::ProcessAllUploads || action
            == YoutubeAction::PublishVideo || action == YoutubeAction::UpdateVideo || action
            == YoutubeAction::CreatePlaylist || action == YoutubeAction::AddToPlaylist || action
            == YoutubeAction::IngestGmail || action == YoutubeAction::SendDigest,
        payload_object(payload) is Some,
    ensures
        payload_issue(action, payload, None, allow_public_actions) == Some(
            ValidationIssue::MissingIdempotencyKey,
        ),
        payload_issue(action, payload, Some(key), allow_public_actions) is None && prepared_body(
            action,
            payload,
            Some(key),
            out,
        ) ==> out.dom().contains("controlRequestId"@) && is_str(out["controlRequestId"@], key),
{
}

/// The nine read actions need no idempotency key: any object request for
/// them is accepted without one.
pub proof fn lemma_read_actions_need_no_key(action: YoutubeAction, payload: Json, allow_public_actions: bool)
    requires
        action == YoutubeAction::Channel || action == YoutubeAction::Videos || action
            == YoutubeAction::Analytics || action == YoutubeAction::Jobs || action
            == YoutubeAction::PartnerStatus || action == YoutubeAction::PartnerOwners || action
            == YoutubeAction::PartnerClaims || action == YoutubeAction::AdminStatus || action
            == YoutubeAction::WorkspaceUsers,
        payload_object(payload) is Some,
    ensures
        payload_issue(action, payload, None, allow_public_actions) is None,
{
}

} // verus!
