//! Runtime configuration, computed from the values of the process
//! environment.
//!
//! Every variable is trimmed and an empty value counts as unset. Paired
//! settings must be given together, credentials must be strong enough, and
//! every optional control plane (YouTube, durable JetStream, the mTLS
//! listener) requires Shared Auth.
use vstd::prelude::*;

use crate::text::{
    byte_len, contains_control, eq_ignore_ascii_case, has_control, has_prefix, has_suffix,
    parse_unsigned, parsed_unsigned, same_text, byte_len_capped, starts_with, ends_with, trim, trimmed, ascii_lowercase,
};
use crate::web_url::{opt_view, parse_url, url_parse_result, UrlParts, UrlView};

verus! {

pub const DEFAULT_PORT: u16 = 8080;

pub const DEFAULT_MAX_RESPONSE_BYTES: usize = 4194304;

pub const MAX_ALLOWED_RESPONSE_BYTES: usize = 16777216;

pub const DEFAULT_TIMEOUT_SECS: u64 = 30;

/// Why the environment does not give a usable configuration.
#[derive(Clone, Copy, Debug, PartialEq, Eq, Structural)]
pub enum ConfigError {
    InvalidPort,
    CredentialWithoutAuthUrl,
    AuthUrlWithoutCredential,
    InvalidServiceCredential,
    ApiKeyWithoutGasUrl,
    GasUrlWithoutApiKey,
    ApiKeyTooShort,
    GasUrl(UrlRejection),
    HandleWithoutAt,
    InvalidTimeout,
    TimeoutOutOfRange,
    InvalidMaxResponseBytes,
    MaxResponseBytesOutOfRange,
    PublicActionsNotBool,
    YoutubeWithoutSharedAuth,
    AttestationKeyMissing,
    DatabaseUrlMissing,
    AttestationKeyWeak,
    CleartextDurableNats,
    DurableWithoutSharedAuth,
    MtlsIncomplete,
    MtlsAddressInvalid,
    MtlsWithoutSharedAuth,
}

/// Why a URL is not a deployed Apps Script web app.
#[derive(Clone, Copy, Debug, PartialEq, Eq, Structural)]
pub enum UrlRejection {
    NotUrl,
    NotHttps,
    WrongHost,
    QueryOrFragment,
    NotDeployment,
}

/// The text reported for each configuration error.
pub open spec fn config_error_text(e: ConfigError) -> Seq<char> {
    match e {
        ConfigError::InvalidPort => "invalid value for PORT"@,
        ConfigError::CredentialWithoutAuthUrl => "SHARED_AUTH_SERVICE_CREDENTIAL is set but SHARED_AUTH_URL is missing"@,
        ConfigError::AuthUrlWithoutCredential => "SHARED_AUTH_URL is set but SHARED_AUTH_SERVICE_CREDENTIAL is missing"@,
        ConfigError::InvalidServiceCredential => "SHARED_AUTH_SERVICE_CREDENTIAL is not a valid service bearer"@,
        ConfigError::ApiKeyWithoutGasUrl => "YOUTUBE_GAS_API_KEY is set but YOUTUBE_GAS_URL is missing"@,
        ConfigError::GasUrlWithoutApiKey => "YOUTUBE_GAS_URL is set but YOUTUBE_GAS_API_KEY is missing"@,
        ConfigError::ApiKeyTooShort => "YOUTUBE_GAS_API_KEY must be at least 32 characters"@,
        ConfigError::GasUrl(UrlRejection::NotUrl) => "YOUTUBE_GAS_URL is not a valid URL"@,
        ConfigError::GasUrl(UrlRejection::NotHttps) => "YOUTUBE_GAS_URL must use https"@,
        ConfigError::GasUrl(UrlRejection::WrongHost) => "YOUTUBE_GAS_URL must use the script.google.com host"@,
        ConfigError::GasUrl(UrlRejection::QueryOrFragment) => "YOUTUBE_GAS_URL must not contain a query string or fragment"@,
        ConfigError::GasUrl(UrlRejection::NotDeployment) => "YOUTUBE_GAS_URL must be a deployed /macros/s/.../exec web-app URL"@,
        ConfigError::HandleWithoutAt => "YOUTUBE_EXPECTED_CHANNEL_HANDLE must start with @"@,
        ConfigError::InvalidTimeout => "invalid value for YOUTUBE_GAS_TIMEOUT_SECS"@,
        ConfigError::TimeoutOutOfRange => "YOUTUBE_GAS_TIMEOUT_SECS must be between 1 and 120"@,
        ConfigError::InvalidMaxResponseBytes => "invalid value for YOUTUBE_GAS_MAX_RESPONSE_BYTES"@,
        ConfigError::MaxResponseBytesOutOfRange => "YOUTUBE_GAS_MAX_RESPONSE_BYTES must be between 1024 and 16777216"@,
        ConfigError::PublicActionsNotBool => "YOUTUBE_ALLOW_PUBLIC_ACTIONS must be true or false"@,
        ConfigError::YoutubeWithoutSharedAuth => "Shared Auth is required whenever the YouTube GAS control plane is configured"@,
        ConfigError::AttestationKeyMissing => "ACT_NATS_OPERATION_HMAC_KEY is required for durable JetStream operations"@,
        ConfigError::DatabaseUrlMissing => "ACT_OPERATION_DATABASE_URL is required with ACT_NATS_OPERATION_HMAC_KEY"@,
        ConfigError::AttestationKeyWeak => "ACT_NATS_OPERATION_HMAC_KEY must contain at least 32 non-control bytes"@,
        ConfigError::CleartextDurableNats => "durable JetStream requires TLS outside explicit loopback development"@,
        ConfigError::DurableWithoutSharedAuth => "Shared Auth is required whenever durable JetStream is configured"@,
        ConfigError::MtlsIncomplete => "all ACT_API_MTLS_ADDR and ACT_API_* TLS file variables are required together"@,
        ConfigError::MtlsAddressInvalid => "ACT_API_MTLS_ADDR must be an IP socket address"@,
        ConfigError::MtlsWithoutSharedAuth => "Shared Auth is required whenever the mTLS operation listener is configured"@,
    }
}

impl ConfigError {
    /// The text reported for this error.
    pub fn message(&self) -> (s: &'static str)
        ensures
            s@ == config_error_text(*self),
    {
        match self {
            ConfigError::InvalidPort => "invalid value for PORT",
            ConfigError::CredentialWithoutAuthUrl => "SHARED_AUTH_SERVICE_CREDENTIAL is set but SHARED_AUTH_URL is missing",
            ConfigError::AuthUrlWithoutCredential => "SHARED_AUTH_URL is set but SHARED_AUTH_SERVICE_CREDENTIAL is missing",
            ConfigError::InvalidServiceCredential => "SHARED_AUTH_SERVICE_CREDENTIAL is not a valid service bearer",
            ConfigError::ApiKeyWithoutGasUrl => "YOUTUBE_GAS_API_KEY is set but YOUTUBE_GAS_URL is missing",
            ConfigError::GasUrlWithoutApiKey => "YOUTUBE_GAS_URL is set but YOUTUBE_GAS_API_KEY is missing",
            ConfigError::ApiKeyTooShort => "YOUTUBE_GAS_API_KEY must be at least 32 characters",
            ConfigError::GasUrl(UrlRejection::NotUrl) => "YOUTUBE_GAS_URL is not a valid URL",
            ConfigError::GasUrl(UrlRejection::NotHttps) => "YOUTUBE_GAS_URL must use https",
            ConfigError::GasUrl(UrlRejection::WrongHost) => "YOUTUBE_GAS_URL must use the script.google.com host",
            ConfigError::GasUrl(UrlRejection::QueryOrFragment) => "YOUTUBE_GAS_URL must not contain a query string or fragment",
            ConfigError::GasUrl(UrlRejection::NotDeployment) => "YOUTUBE_GAS_URL must be a deployed /macros/s/.../exec web-app URL",
            ConfigError::HandleWithoutAt => "YOUTUBE_EXPECTED_CHANNEL_HANDLE must start with @",
            ConfigError::InvalidTimeout => "invalid value for YOUTUBE_GAS_TIMEOUT_SECS",
            ConfigError::TimeoutOutOfRange => "YOUTUBE_GAS_TIMEOUT_SECS must be between 1 and 120",
            ConfigError::InvalidMaxResponseBytes => "invalid value for YOUTUBE_GAS_MAX_RESPONSE_BYTES",
            ConfigError::MaxResponseBytesOutOfRange => "YOUTUBE_GAS_MAX_RESPONSE_BYTES must be between 1024 and 16777216",
            ConfigError::PublicActionsNotBool => "YOUTUBE_ALLOW_PUBLIC_ACTIONS must be true or false",
            ConfigError::YoutubeWithoutSharedAuth => "Shared Auth is required whenever the YouTube GAS control plane is configured",
            ConfigError::AttestationKeyMissing => "ACT_NATS_OPERATION_HMAC_KEY is required for durable JetStream operations",
            ConfigError::DatabaseUrlMissing => "ACT_OPERATION_DATABASE_URL is required with ACT_NATS_OPERATION_HMAC_KEY",
            ConfigError::AttestationKeyWeak => "ACT_NATS_OPERATION_HMAC_KEY must contain at least 32 non-control bytes",
            ConfigError::CleartextDurableNats => "durable JetStream requires TLS outside explicit loopback development",
            ConfigError::DurableWithoutSharedAuth => "Shared Auth is required whenever durable JetStream is configured",
            ConfigError::MtlsIncomplete => "all ACT_API_MTLS_ADDR and ACT_API_* TLS file variables are required together",
            ConfigError::MtlsAddressInvalid => "ACT_API_MTLS_ADDR must be an IP socket address",
            ConfigError::MtlsWithoutSharedAuth => "Shared Auth is required whenever the mTLS operation listener is configured",
        }
    }
}


/// A variable's value once trimmed, with an empty value counting as unset.
pub open spec fn non_empty(raw: Option<Seq<char>>) -> Option<Seq<char>> {
    match raw {
        Some(v) => if trimmed(v).len() > 0 {
            Some(trimmed(v))
        } else {
            None
        },
        None => None,
    }
}

/// A variable's trimmed value, or `None` when it is unset or blank.
pub fn env_non_empty(raw: &Option<String>) -> (r: Option<String>)
    ensures
        opt_view(r) == non_empty(opt_view(*raw)),
{
    match raw {
        Some(value) => {
            let t = trim(value.as_str());
            if t.as_str().unicode_len() > 0 {
                Some(t)
            } else {
                None
            }
        },
        None => None,
    }
}

/// The value of an unsigned setting: `default` when unset, otherwise the
/// parsed number, or `None` when it does not parse within `max`.
pub open spec fn unsigned_setting(raw: Option<Seq<char>>, max: int, default: int) -> Option<int> {
    match non_empty(raw) {
        None => Some(default),
        Some(v) => parsed_unsigned(v, max),
    }
}

fn unsigned_env(raw: &Option<String>, max: u64, default: u64) -> (r: Option<u64>)
    requires
        default <= max,
    ensures
        r is Some <==> unsigned_setting(opt_view(*raw), max as int, default as int) is Some,
        r matches Some(v) ==> unsigned_setting(opt_view(*raw), max as int, default as int) == Some(
            v as int,
        ),
{
    match env_non_empty(raw) {
        None => Some(default),
        Some(v) => parse_unsigned(v.as_str(), max),
    }
}

/// The value of a boolean setting: `default` when unset; `1`, `true`, `yes`,
/// `on` and `0`, `false`, `no`, `off` in any ASCII case; anything else is an
/// error.
pub open spec fn bool_setting(raw: Option<Seq<char>>, default: bool) -> Result<bool, ConfigError> {
    match non_empty(raw) {
        None => Ok(default),
        Some(v) => {
            let l = ascii_lowercase(v);
            if l == "1"@ || l == "true"@ || l == "yes"@ || l == "on"@ {
                Ok(true)
            } else if l == "0"@ || l == "false"@ || l == "no"@ || l == "off"@ {
                Ok(false)
            } else {
                Err(ConfigError::PublicActionsNotBool)
            }
        },
    }
}

proof fn lemma_lowercase_literals()
    ensures
        ascii_lowercase("1"@) == "1"@,
        ascii_lowercase("true"@) == "true"@,
        ascii_lowercase("yes"@) == "yes"@,
        ascii_lowercase("on"@) == "on"@,
        ascii_lowercase("0"@) == "0"@,
        ascii_lowercase("false"@) == "false"@,
        ascii_lowercase("no"@) == "no"@,
        ascii_lowercase("off"@) == "off"@,
{
    reveal_strlit("1");
    reveal_strlit("true");
    reveal_strlit("yes");
    reveal_strlit("on");
    reveal_strlit("0");
    reveal_strlit("false");
    reveal_strlit("no");
    reveal_strlit("off");
    assert(ascii_lowercase("1"@) =~= "1"@);
    assert(ascii_lowercase("true"@) =~= "true"@);
    assert(ascii_lowercase("yes"@) =~= "yes"@);
    assert(ascii_lowercase("on"@) =~= "on"@);
    assert(ascii_lowercase("0"@) =~= "0"@);
    assert(ascii_lowercase("false"@) =~= "false"@);
    assert(ascii_lowercase("no"@) =~= "no"@);
    assert(ascii_lowercase("off"@) =~= "off"@);
}

/// A boolean setting is its default when unset; `0`, `false`, `no` and
/// `off` (in any ASCII case, trimmed) read as false, `1`, `true`, `yes` and
/// `on` as true, and anything else is an error. The two word lists share no
/// word, so `0` never reads as true.
pub proof fn lemma_bool_setting_words(raw: Option<Seq<char>>, default: bool)
    ensures
        non_empty(raw) is None ==> bool_setting(raw, default) == Ok::<bool, ConfigError>(default),
        non_empty(raw) matches Some(v) && (ascii_lowercase(v) == "0"@ || ascii_lowercase(v)
            == "false"@ || ascii_lowercase(v) == "no"@ || ascii_lowercase(v) == "off"@) ==> bool_setting(
            raw,
            default,
        ) == Ok::<bool, ConfigError>(false),
        non_empty(raw) matches Some(v) && (ascii_lowercase(v) == "1"@ || ascii_lowercase(v)
            == "true"@ || ascii_lowercase(v) == "yes"@ || ascii_lowercase(v) == "on"@) ==> bool_setting(
            raw,
            default,
        ) == Ok::<bool, ConfigError>(true),
        non_empty(raw) matches Some(v) && !(ascii_lowercase(v) == "0"@ || ascii_lowercase(v)
            == "false"@ || ascii_lowercase(v) == "no"@ || ascii_lowercase(v) == "off"@
            || ascii_lowercase(v) == "1"@ || ascii_lowercase(v) == "true"@ || ascii_lowercase(v)
            == "yes"@ || ascii_lowercase(v) == "on"@) ==> bool_setting(raw, default) == Err::<
            bool,
            ConfigError,
        >(ConfigError::PublicActionsNotBool),
{
    reveal_strlit("0");
    reveal_strlit("false");
    reveal_strlit("no");
    reveal_strlit("off");
    reveal_strlit("1");
    reveal_strlit("true");
    reveal_strlit("yes");
    reveal_strlit("on");
    assert("0"@ != "1"@ && "0"@ != "true"@ && "0"@ != "yes"@ && "0"@ != "on"@) by {
        assert("0"@[0] != "1"@[0]);
        assert("0"@.len() != "true"@.len());
        assert("0"@.len() != "yes"@.len());
        assert("0"@.len() != "on"@.len());
    }
    assert("false"@ != "1"@ && "false"@ != "true"@ && "false"@ != "yes"@ && "false"@ != "on"@) by {
        assert("false"@.len() != "1"@.len());
        assert("false"@.len() != "true"@.len());
        assert("false"@.len() != "yes"@.len());
        assert("false"@.len() != "on"@.len());
    }
    assert("no"@ != "1"@ && "no"@ != "true"@ && "no"@ != "yes"@ && "no"@ != "on"@) by {
        assert("no"@.len() != "1"@.len());
        assert("no"@.len() != "true"@.len());
        assert("no"@.len() != "yes"@.len());
        assert("no"@[0] != "on"@[0]);
    }
    assert("off"@ != "1"@ && "off"@ != "true"@ && "off"@ != "yes"@ && "off"@ != "on"@) by {
        assert("off"@.len() != "1"@.len());
        assert("off"@.len() != "true"@.len());
        assert("off"@[0] != "yes"@[0]);
        assert("off"@.len() != "on"@.len());
    }
}

/// Public and unlisted actions are enabled only when
/// `YOUTUBE_ALLOW_PUBLIC_ACTIONS` is one of `1`, `true`, `yes` or `on` (in
/// any ASCII case, trimmed): unset, `0` or any other value keeps them off
/// or fails the startup.
pub proof fn lemma_public_actions_need_a_true_word(env: EnvSnapshot, socket_ok: bool)
    requires
        config_outcome(env, socket_ok) matches Ok(c) && c.youtube matches Some(y)
            && y.allow_public_actions,
    ensures
        non_empty(opt_view(env.youtube_allow_public_actions)) matches Some(v) && (ascii_lowercase(
            v,
        ) == "1"@ || ascii_lowercase(v) == "true"@ || ascii_lowercase(v) == "yes"@
            || ascii_lowercase(v) == "on"@),
{
    let raw = opt_view(env.youtube_allow_public_actions);
    lemma_bool_setting_words(raw, false);
    assert(bool_setting(raw, false) == Ok::<bool, ConfigError>(true));
}

/// The boolean value of `YOUTUBE_ALLOW_PUBLIC_ACTIONS`.
pub fn parse_bool_env(raw: &Option<String>, default: bool) -> (r: Result<bool, ConfigError>)
    ensures
        r == bool_setting(opt_view(*raw), default),
{
    proof {
        lemma_lowercase_literals();
    }
    match env_non_empty(raw) {
        None => Ok(default),
        Some(v) => {
            let v = v.as_str();
            if eq_ignore_ascii_case(v, "1") || eq_ignore_ascii_case(v, "true")
                || eq_ignore_ascii_case(v, "yes") || eq_ignore_ascii_case(v, "on") {
                Ok(true)
            } else if eq_ignore_ascii_case(v, "0") || eq_ignore_ascii_case(v, "false")
                || eq_ignore_ascii_case(v, "no") || eq_ignore_ascii_case(v, "off") {
                Ok(false)
            } else {
                Err(ConfigError::PublicActionsNotBool)
            }
        },
    }
}

/// Whether `c` ends the authority of a URL (`/`, `?` or `#`).
pub open spec fn ends_authority(c: char) -> bool {
    c == '/' || c == '?' || c == '#'
}

/// The index of the first character at or after `i` that ends the
/// authority, or the length when there is none.
pub open spec fn authority_end(s: Seq<char>, i: int) -> int
    decreases s.len() - i,
{
    if i < 0 || i >= s.len() {
        s.len() as int
    } else if ends_authority(s[i]) {
        i
    } else {
        authority_end(s, i + 1)
    }
}

/// The index of the last `@` before `j`, or -1 when there is none.
pub open spec fn last_at(s: Seq<char>, j: int) -> int
    decreases j,
{
    if j <= 0 || j > s.len() {
        -1
    } else if s[j - 1] == '@' {
        j - 1
    } else {
        last_at(s, j - 1)
    }
}

/// The end of the authority lies between `i` and the length.
pub proof fn lemma_authority_end_bounds(s: Seq<char>, i: int)
    requires
        0 <= i <= s.len(),
    ensures
        i <= authority_end(s, i) <= s.len(),
    decreases s.len() - i,
{
    if i < s.len() && !ends_authority(s[i]) {
        lemma_authority_end_bounds(s, i + 1);
    }
}

/// The last `@` before `j` lies before `j`.
pub proof fn lemma_last_at_bounds(s: Seq<char>, j: int)
    requires
        0 <= j <= s.len(),
    ensures
        -1 <= last_at(s, j) < j,
    decreases j,
{
    if j > 0 && s[j - 1] != '@' {
        lemma_last_at_bounds(s, j - 1);
    }
}

/// The authority of a `nats://` URL: what follows the scheme, up to the
/// first `/`, `?` or `#`.
pub open spec fn nats_authority(v: Seq<char>) -> Seq<char> {
    let rest = v.subrange(7, v.len() as int);
    rest.subrange(0, authority_end(rest, 0))
}

/// Whether a `host[:port]` names a loopback host exactly: `127.0.0.1`,
/// `localhost` or `[::1]`, alone or followed by a port.
pub open spec fn loopback_host_port(hp: Seq<char>) -> bool {
    ||| hp == "127.0.0.1"@
    ||| starts_with(hp, "127.0.0.1:"@)
    ||| hp == "localhost"@
    ||| starts_with(hp, "localhost:"@)
    ||| hp == "[::1]"@
    ||| starts_with(hp, "[::1]:"@)
}

/// Whether a NATS URL may carry durable JetStream traffic: TLS, or plain NATS
/// whose authority is exactly an explicit loopback address, with or without
/// a port and without user information.
pub open spec fn durable_nats_allowed(v: Seq<char>) -> bool {
    ||| starts_with(v, "tls://"@)
    ||| starts_with(v, "nats://"@) && last_at(nats_authority(v), nats_authority(v).len() as int) < 0
        && loopback_host_port(nats_authority(v))
}

/// The index where the authority of `s` ends.
fn authority_end_index(s: &str) -> (r: usize)
    ensures
        r as int == authority_end(s@, 0),
        r <= s@.len(),
{
    proof {
        lemma_authority_end_bounds(s@, 0);
    }
    let n = s.unicode_len();
    let mut i: usize = 0;
    while i < n
        invariant
            n == s@.len(),
            i <= n,
            authority_end(s@, i as int) == authority_end(s@, 0),
        decreases n - i,
    {
        let c = s.get_char(i);
        if c == '/' || c == '?' || c == '#' {
            return i;
        }
        i = i + 1;
    }
    i
}

/// The index just after the last `@` of `s`, or 0 when there is none.
fn host_start_index(s: &str) -> (r: usize)
    ensures
        r as int == last_at(s@, s@.len() as int) + 1,
        r <= s@.len(),
{
    proof {
        lemma_last_at_bounds(s@, s@.len() as int);
    }
    let n = s.unicode_len();
    let mut j: usize = n;
    while j > 0 && s.get_char(j - 1) != '@'
        invariant
            n == s@.len(),
            j <= n,
            last_at(s@, j as int) == last_at(s@, n as int),
        decreases j,
    {
        j = j - 1;
    }
    j
}

fn is_loopback_host_port(hp: &str) -> (b: bool)
    ensures
        b == loopback_host_port(hp@),
{
    same_text(hp, "127.0.0.1") || has_prefix(hp, "127.0.0.1:") || same_text(hp, "localhost")
        || has_prefix(hp, "localhost:") || same_text(hp, "[::1]") || has_prefix(hp, "[::1]:")
}

pub fn validate_durable_nats_url(value: &str) -> (r: Result<(), ConfigError>)
    ensures
        r is Ok <==> durable_nats_allowed(value@),
        r is Err ==> r == Err::<(), ConfigError>(ConfigError::CleartextDurableNats),
{
    if has_prefix(value, "tls://") {
        return Ok(());
    }
    if !has_prefix(value, "nats://") {
        return Err(ConfigError::CleartextDurableNats);
    }
    proof {
        reveal_strlit("nats://");
    }
    let rest = value.substring_char(7, value.unicode_len());
    let authority = rest.substring_char(0, authority_end_index(rest));
    if host_start_index(authority) != 0 || !is_loopback_host_port(authority) {
        return Err(ConfigError::CleartextDurableNats);
    }
    Ok(())
}

/// The durable-operation settings: the database URL and the attestation key
/// come together, and the key has at least 32 bytes and no control
/// character.
pub open spec fn operation_check(database_enabled: bool, key: Option<Seq<char>>) -> Result<
    (),
    ConfigError,
> {
    match (database_enabled, key) {
        (false, None) => Ok(()),
        (true, None) => Err(ConfigError::AttestationKeyMissing),
        (false, Some(_)) => Err(ConfigError::DatabaseUrlMissing),
        (true, Some(k)) => if byte_len(k) < 32 || has_control(k) {
            Err(ConfigError::AttestationKeyWeak)
        } else {
            Ok(())
        },
    }
}

pub fn validate_operation_configuration(database_enabled: bool, attestation_key: Option<&str>) -> (r:
    Result<(), ConfigError>)
    ensures
        r == operation_check(
            database_enabled,
            match attestation_key {
                Some(k) => Some(k@),
                None => None,
            },
        ),
{
    match (database_enabled, attestation_key) {
        (false, None) => Ok(()),
        (true, None) => Err(ConfigError::AttestationKeyMissing),
        (false, Some(_)) => Err(ConfigError::DatabaseUrlMissing),
        (true, Some(key)) => {
            if byte_len_capped(key, 32) < 32 || contains_control(key) {
                return Err(ConfigError::AttestationKeyWeak);
            }
            Ok(())
        },
    }
}

/// The YouTube control plane requires Shared Auth.
pub fn validate_auth_configuration(shared_auth_enabled: bool, youtube_enabled: bool) -> (r: Result<
    (),
    ConfigError,
>)
    ensures
        r is Ok <==> (youtube_enabled ==> shared_auth_enabled),
        r is Err ==> r == Err::<(), ConfigError>(ConfigError::YoutubeWithoutSharedAuth),
{
    if youtube_enabled && !shared_auth_enabled {
        return Err(ConfigError::YoutubeWithoutSharedAuth);
    }
    Ok(())
}

/// `s` without all of its trailing `/` characters.
pub open spec fn strip_trailing_slashes(s: Seq<char>) -> Seq<char>
    decreases s.len(),
{
    if s.len() > 0 && s.last() == '/' {
        strip_trailing_slashes(s.drop_last())
    } else {
        s
    }
}

/// Whether a parsed URL is a deployed Apps Script web app: https on
/// `script.google.com`, no query or fragment, and a path of the form
/// `/macros/s/.../exec` (trailing slashes ignored).
pub open spec fn apps_script_check(u: UrlView) -> Result<(), UrlRejection> {
    let p = strip_trailing_slashes(u.path);
    if u.scheme != "https"@ {
        Err(UrlRejection::NotHttps)
    } else if u.host != Some("script.google.com"@) {
        Err(UrlRejection::WrongHost)
    } else if u.query is Some || u.fragment is Some {
        Err(UrlRejection::QueryOrFragment)
    } else if !starts_with(p, "/macros/s/"@) || !ends_with(p, "/exec"@) {
        Err(UrlRejection::NotDeployment)
    } else {
        Ok(())
    }
}

/// What `parse_apps_script_url` gives for a raw value.
pub open spec fn apps_script_url(raw: Seq<char>) -> Result<UrlView, UrlRejection> {
    match url_parse_result(raw) {
        None => Err(UrlRejection::NotUrl),
        Some(u) => match apps_script_check(u) {
            Ok(()) => Ok(u),
            Err(e) => Err(e),
        },
    }
}

fn without_trailing_slashes(s: &str) -> (r: String)
    ensures
        r@ == strip_trailing_slashes(s@),
{
    let mut end = s.unicode_len();
    assert(s@.subrange(0, end as int) =~= s@);
    while end > 0 && s.get_char(end - 1) == '/'
        invariant
            end <= s@.len(),
            strip_trailing_slashes(s@.subrange(0, end as int)) == strip_trailing_slashes(s@),
        decreases end,
    {
        assert(s@.subrange(0, end as int).last() == s@[end - 1]);
        assert(s@.subrange(0, end as int).drop_last() =~= s@.subrange(0, end - 1));
        end = end - 1;
    }
    assert(s@.subrange(0, 0) =~= Seq::<char>::empty());
    s.substring_char(0, end).to_owned()
}

fn opt_equals(o: &Option<String>, lit: &str) -> (b: bool)
    ensures
        b == (opt_view(*o) == Some(lit@)),
{
    match o {
        Some(v) => same_text(v.as_str(), lit),
        None => false,
    }
}

/// Checks a parsed URL against the Apps Script web-app shape.
pub fn check_apps_script_url(url: &UrlParts) -> (r: Result<(), UrlRejection>)
    ensures
        r == apps_script_check(url@),
{
    if !same_text(url.scheme.as_str(), "https") {
        return Err(UrlRejection::NotHttps);
    }
    if !opt_equals(&url.host, "script.google.com") {
        return Err(UrlRejection::WrongHost);
    }
    if url.query.is_some() || url.fragment.is_some() {
        return Err(UrlRejection::QueryOrFragment);
    }
    let path = without_trailing_slashes(url.path.as_str());
    if !has_prefix(path.as_str(), "/macros/s/") || !has_suffix(path.as_str(), "/exec") {
        return Err(UrlRejection::NotDeployment);
    }
    Ok(())
}

/// Parses `YOUTUBE_GAS_URL` and checks that it is a deployed Apps Script web
/// app.
pub fn parse_apps_script_url(raw: &str) -> (r: Result<UrlParts, UrlRejection>)
    ensures
        match r {
            Ok(u) => apps_script_url(raw@) == Ok::<UrlView, UrlRejection>(u@),
            Err(e) => apps_script_url(raw@) == Err::<UrlView, UrlRejection>(e),
        },
{
    let url = match parse_url(raw) {
        Some(u) => u,
        None => return Err(UrlRejection::NotUrl),
    };
    match check_apps_script_url(&url) {
        Ok(()) => Ok(url),
        Err(e) => Err(e),
    }
}

/// The raw values of the environment variables the server reads; `None` for
/// a variable that is unset or not valid Unicode.
#[derive(Clone, Debug, Default)]
pub struct EnvSnapshot {
    pub port: Option<String>,
    pub nats_url: Option<String>,
    pub otel_service_name: Option<String>,
    pub shared_auth_url: Option<String>,
    pub shared_auth_service_credential: Option<String>,
    pub youtube_gas_url: Option<String>,
    pub youtube_gas_api_key: Option<String>,
    pub youtube_expected_channel_handle: Option<String>,
    pub youtube_gas_timeout_secs: Option<String>,
    pub youtube_gas_max_response_bytes: Option<String>,
    pub youtube_allow_public_actions: Option<String>,
    pub operation_database_url: Option<String>,
    pub operation_hmac_key: Option<String>,
    pub mtls_addr: Option<String>,
    pub tls_cert_file: Option<String>,
    pub tls_key_file: Option<String>,
    pub client_ca_file: Option<String>,
}

#[derive(Clone, Debug)]
pub struct SharedAuthConfig {
    pub base_url: String,
    pub service_credential: String,
    pub audience: String,
}

pub struct SharedAuthView {
    pub base_url: Seq<char>,
    pub service_credential: Seq<char>,
    pub audience: Seq<char>,
}

impl View for SharedAuthConfig {
    type V = SharedAuthView;

    open spec fn view(&self) -> SharedAuthView {
        SharedAuthView {
            base_url: self.base_url@,
            service_credential: self.service_credential@,
            audience: self.audience@,
        }
    }
}

#[derive(Clone, Debug)]
pub struct MtlsConfig {
    pub address: String,
    pub certificate_file: String,
    pub private_key_file: String,
    pub client_ca_file: String,
}

pub struct MtlsView {
    pub address: Seq<char>,
    pub certificate_file: Seq<char>,
    pub private_key_file: Seq<char>,
    pub client_ca_file: Seq<char>,
}

impl View for MtlsConfig {
    type V = MtlsView;

    open spec fn view(&self) -> MtlsView {
        MtlsView {
            address: self.address@,
            certificate_file: self.certificate_file@,
            private_key_file: self.private_key_file@,
            client_ca_file: self.client_ca_file@,
        }
    }
}

#[derive(Clone, Debug)]
pub struct YoutubeConfig {
    pub web_app_url: UrlParts,
    pub api_key: String,
    pub expected_channel_handle: String,
    pub timeout_secs: u64,
    pub max_response_bytes: usize,
    pub allow_public_actions: bool,
}

pub struct YoutubeView {
    pub web_app_url: UrlView,
    pub api_key: Seq<char>,
    pub expected_channel_handle: Seq<char>,
    pub timeout_secs: u64,
    pub max_response_bytes: usize,
    pub allow_public_actions: bool,
}

impl View for YoutubeConfig {
    type V = YoutubeView;

    open spec fn view(&self) -> YoutubeView {
        YoutubeView {
            web_app_url: self.web_app_url@,
            api_key: self.api_key@,
            expected_channel_handle: self.expected_channel_handle@,
            timeout_secs: self.timeout_secs,
            max_response_bytes: self.max_response_bytes,
            allow_public_actions: self.allow_public_actions,
        }
    }
}

#[derive(Clone, Debug)]
pub struct Config {
    pub port: u16,
    pub nats_url: String,
    pub service_name: String,
    pub shared_auth: Option<SharedAuthConfig>,
    pub youtube: Option<YoutubeConfig>,
    pub operation_database_url: Option<String>,
    pub operation_attestation_key: Option<String>,
    pub mtls: Option<MtlsConfig>,
}

pub struct ConfigView {
    pub port: u16,
    pub nats_url: Seq<char>,
    pub service_name: Seq<char>,
    pub shared_auth: Option<SharedAuthView>,
    pub youtube: Option<YoutubeView>,
    pub operation_database_url: Option<Seq<char>>,
    pub operation_attestation_key: Option<Seq<char>>,
    pub mtls: Option<MtlsView>,
}

pub open spec fn opt_shared_view(o: Option<SharedAuthConfig>) -> Option<SharedAuthView> {
    match o {
        Some(v) => Some(v@),
        None => None,
    }
}

pub open spec fn opt_youtube_view(o: Option<YoutubeConfig>) -> Option<YoutubeView> {
    match o {
        Some(v) => Some(v@),
        None => None,
    }
}

pub open spec fn opt_mtls_view(o: Option<MtlsConfig>) -> Option<MtlsView> {
    match o {
        Some(v) => Some(v@),
        None => None,
    }
}

impl View for Config {
    type V = ConfigView;

    open spec fn view(&self) -> ConfigView {
        ConfigView {
            port: self.port,
            nats_url: self.nats_url@,
            service_name: self.service_name@,
            shared_auth: opt_shared_view(self.shared_auth),
            youtube: opt_youtube_view(self.youtube),
            operation_database_url: opt_view(self.operation_database_url),
            operation_attestation_key: opt_view(self.operation_attestation_key),
            mtls: opt_mtls_view(self.mtls),
        }
    }
}

/// `PORT`, 8080 when unset.
pub open spec fn port_setting(raw: Option<Seq<char>>) -> Result<u16, ConfigError> {
    match unsigned_setting(raw, 65535, DEFAULT_PORT as int) {
        Some(p) => Ok(p as u16),
        None => Err(ConfigError::InvalidPort),
    }
}

/// Shared Auth: both the URL and the service credential, or neither; the
/// credential has at least 16 bytes and no control character.
pub open spec fn shared_auth_setting(url: Option<Seq<char>>, credential: Option<Seq<char>>) -> Result<
    Option<SharedAuthView>,
    ConfigError,
> {
    match (non_empty(url), non_empty(credential)) {
        (None, None) => Ok(None),
        (None, Some(_)) => Err(ConfigError::CredentialWithoutAuthUrl),
        (Some(_), None) => Err(ConfigError::AuthUrlWithoutCredential),
        (Some(u), Some(c)) => if byte_len(c) < 16 || has_control(c) {
            Err(ConfigError::InvalidServiceCredential)
        } else {
            Ok(Some(SharedAuthView { base_url: u, service_credential: c, audience: "act-api"@ }))
        },
    }
}

/// The YouTube settings once the URL and the API key are known to be given
/// together and the key to be long enough.
pub open spec fn youtube_details(env: EnvSnapshot, url: UrlView, key: Seq<char>) -> Result<
    Option<YoutubeView>,
    ConfigError,
> {
    let handle = match non_empty(opt_view(env.youtube_expected_channel_handle)) {
        Some(h) => h,
        None => "@anticaptrad"@,
    };
    if !starts_with(handle, "@"@) {
        Err(ConfigError::HandleWithoutAt)
    } else {
        match unsigned_setting(
            opt_view(env.youtube_gas_timeout_secs),
            u64::MAX as int,
            DEFAULT_TIMEOUT_SECS as int,
        ) {
            None => Err(ConfigError::InvalidTimeout),
            Some(secs) => if !(1 <= secs <= 120) {
                Err(ConfigError::TimeoutOutOfRange)
            } else {
                match unsigned_setting(
                    opt_view(env.youtube_gas_max_response_bytes),
                    usize::MAX as int,
                    DEFAULT_MAX_RESPONSE_BYTES as int,
                ) {
                    None => Err(ConfigError::InvalidMaxResponseBytes),
                    Some(bytes) => if !(1024 <= bytes <= MAX_ALLOWED_RESPONSE_BYTES) {
                        Err(ConfigError::MaxResponseBytesOutOfRange)
                    } else {
                        match bool_setting(opt_view(env.youtube_allow_public_actions), false) {
                            Err(e) => Err(e),
                            Ok(allow) => Ok(
                                Some(
                                    YoutubeView {
                                        web_app_url: url,
                                        api_key: key,
                                        expected_channel_handle: handle,
                                        timeout_secs: secs as u64,
                                        max_response_bytes: bytes as usize,
                                        allow_public_actions: allow,
                                    },
                                ),
                            ),
                        }
                    },
                }
            },
        }
    }
}

/// The YouTube control plane: the Apps Script URL and API key, or neither;
/// the key has at least 32 characters, the URL is a deployed web app, the channel
/// handle starts with `@`, the timeout lies in 1..=120 seconds and the
/// response cap in 1 KiB..=16 MiB.
pub open spec fn youtube_setting(env: EnvSnapshot) -> Result<Option<YoutubeView>, ConfigError> {
    match (non_empty(opt_view(env.youtube_gas_url)), non_empty(opt_view(env.youtube_gas_api_key))) {
        (None, None) => Ok(None),
        (None, Some(_)) => Err(ConfigError::ApiKeyWithoutGasUrl),
        (Some(_), None) => Err(ConfigError::GasUrlWithoutApiKey),
        (Some(u), Some(k)) => if k.len() < 32 {
            Err(ConfigError::ApiKeyTooShort)
        } else {
            match apps_script_url(u) {
                Err(e) => Err(ConfigError::GasUrl(e)),
                Ok(url) => youtube_details(env, url, k),
            }
        },
    }
}

/// The mTLS listener: its address and three file references all given or
/// none; the address must be an IP socket address (`socket_ok` says whether
/// the trimmed address parses as one).
pub open spec fn mtls_setting(env: EnvSnapshot, socket_ok: bool) -> Result<Option<MtlsView>, ConfigError> {
    let a = non_empty(opt_view(env.mtls_addr));
    let c = non_empty(opt_view(env.tls_cert_file));
    let k = non_empty(opt_view(env.tls_key_file));
    let ca = non_empty(opt_view(env.client_ca_file));
    if a is None && c is None && k is None && ca is None {
        Ok(None)
    } else if a is None || c is None || k is None || ca is None {
        Err(ConfigError::MtlsIncomplete)
    } else if !socket_ok {
        Err(ConfigError::MtlsAddressInvalid)
    } else {
        Ok(
            Some(
                MtlsView {
                    address: a.unwrap(),
                    certificate_file: c.unwrap(),
                    private_key_file: k.unwrap(),
                    client_ca_file: ca.unwrap(),
                },
            ),
        )
    }
}

/// The configuration that an environment gives, or the first error in the
/// order the settings are read: port, Shared Auth, YouTube, the YouTube
/// requirement on Shared Auth, the durable-operation pair, the durable NATS
/// transport and its requirement on Shared Auth, then mTLS and its
/// requirement on Shared Auth.
pub open spec fn config_outcome(env: EnvSnapshot, socket_ok: bool) -> Result<ConfigView, ConfigError> {
    let nats_url = match non_empty(opt_view(env.nats_url)) {
        Some(v) => v,
        None => "nats://localhost:4222"@,
    };
    let service_name = match non_empty(opt_view(env.otel_service_name)) {
        Some(v) => v,
        None => "act-api-server"@,
    };
    let database = non_empty(opt_view(env.operation_database_url));
    let key = non_empty(opt_view(env.operation_hmac_key));
    match port_setting(opt_view(env.port)) {
        Err(e) => Err(e),
        Ok(port) => match shared_auth_setting(
            opt_view(env.shared_auth_url),
            opt_view(env.shared_auth_service_credential),
        ) {
            Err(e) => Err(e),
            Ok(shared_auth) => match youtube_setting(env) {
                Err(e) => Err(e),
                Ok(youtube) => if youtube is Some && shared_auth is None {
                    Err(ConfigError::YoutubeWithoutSharedAuth)
                } else {
                    match operation_check(database is Some, key) {
                        Err(e) => Err(e),
                        Ok(()) => if database is Some && !durable_nats_allowed(nats_url) {
                            Err(ConfigError::CleartextDurableNats)
                        } else if database is Some && shared_auth is None {
                            Err(ConfigError::DurableWithoutSharedAuth)
                        } else {
                            match mtls_setting(env, socket_ok) {
                                Err(e) => Err(e),
                                Ok(mtls) => if mtls is Some && shared_auth is None {
                                    Err(ConfigError::MtlsWithoutSharedAuth)
                                } else {
                                    Ok(
                                        ConfigView {
                                            port,
                                            nats_url,
                                            service_name,
                                            shared_auth,
                                            youtube,
                                            operation_database_url: database,
                                            operation_attestation_key: key,
                                            mtls,
                                        },
                                    )
                                },
                            }
                        },
                    }
                },
            },
        },
    }
}

fn port_from_env(raw: &Option<String>) -> (r: Result<u16, ConfigError>)
    ensures
        r == port_setting(opt_view(*raw)),
{
    match unsigned_env(raw, 65535, 8080) {
        Some(p) => Ok(p as u16),
        None => Err(ConfigError::InvalidPort),
    }
}

fn shared_auth_from_env(url: &Option<String>, credential: &Option<String>) -> (r: Result<
    Option<SharedAuthConfig>,
    ConfigError,
>)
    ensures
        match r {
            Ok(o) => shared_auth_setting(opt_view(*url), opt_view(*credential)) == Ok::<
                Option<SharedAuthView>,
                ConfigError,
            >(opt_shared_view(o)),
            Err(e) => shared_auth_setting(opt_view(*url), opt_view(*credential)) == Err::<
                Option<SharedAuthView>,
                ConfigError,
            >(e),
        },
{
    match (env_non_empty(url), env_non_empty(credential)) {
        (None, None) => Ok(None),
        (None, Some(_)) => Err(ConfigError::CredentialWithoutAuthUrl),
        (Some(_), None) => Err(ConfigError::AuthUrlWithoutCredential),
        (Some(base_url), Some(service_credential)) => {
            if byte_len_capped(service_credential.as_str(), 16) < 16 || contains_control(
                service_credential.as_str(),
            ) {
                return Err(ConfigError::InvalidServiceCredential);
            }
            let audience = String::from_str("act-api");
            Ok(Some(SharedAuthConfig { base_url, service_credential, audience }))
        },
    }
}

fn youtube_details_from_env(env: &EnvSnapshot, web_app_url: UrlParts, api_key: String) -> (r: Result<
    Option<YoutubeConfig>,
    ConfigError,
>)
    ensures
        match r {
            Ok(o) => youtube_details(*env, web_app_url@, api_key@) == Ok::<
                Option<YoutubeView>,
                ConfigError,
            >(opt_youtube_view(o)),
            Err(e) => youtube_details(*env, web_app_url@, api_key@) == Err::<
                Option<YoutubeView>,
                ConfigError,
            >(e),
        },
{
    let expected_channel_handle = match env_non_empty(&env.youtube_expected_channel_handle) {
        Some(h) => h,
        None => String::from_str("@anticaptrad"),
    };
    if !has_prefix(expected_channel_handle.as_str(), "@") {
        return Err(ConfigError::HandleWithoutAt);
    }
    let timeout_secs = match unsigned_env(&env.youtube_gas_timeout_secs, u64::MAX, 30) {
        Some(t) => t,
        None => return Err(ConfigError::InvalidTimeout),
    };
    if !(1 <= timeout_secs && timeout_secs <= 120) {
        return Err(ConfigError::TimeoutOutOfRange);
    }
    let max_response_bytes = match unsigned_env(
        &env.youtube_gas_max_response_bytes,
        usize::MAX as u64,
        4194304,
    ) {
        Some(b) => b as usize,
        None => return Err(ConfigError::InvalidMaxResponseBytes),
    };
    if !(1024 <= max_response_bytes && max_response_bytes <= MAX_ALLOWED_RESPONSE_BYTES) {
        return Err(ConfigError::MaxResponseBytesOutOfRange);
    }
    let allow_public_actions = match parse_bool_env(&env.youtube_allow_public_actions, false) {
        Ok(a) => a,
        Err(e) => return Err(e),
    };
    Ok(
        Some(
            YoutubeConfig {
                web_app_url,
                api_key,
                expected_channel_handle,
                timeout_secs,
                max_response_bytes,
                allow_public_actions,
            },
        ),
    )
}

fn youtube_from_env(env: &EnvSnapshot) -> (r: Result<Option<YoutubeConfig>, ConfigError>)
    ensures
        match r {
            Ok(o) => youtube_setting(*env) == Ok::<Option<YoutubeView>, ConfigError>(
                opt_youtube_view(o),
            ),
            Err(e) => youtube_setting(*env) == Err::<Option<YoutubeView>, ConfigError>(e),
        },
{
    match (env_non_empty(&env.youtube_gas_url), env_non_empty(&env.youtube_gas_api_key)) {
        (None, None) => Ok(None),
        (None, Some(_)) => Err(ConfigError::ApiKeyWithoutGasUrl),
        (Some(_), None) => Err(ConfigError::GasUrlWithoutApiKey),
        (Some(raw_url), Some(api_key)) => {
            if api_key.as_str().unicode_len() < 32 {
                return Err(ConfigError::ApiKeyTooShort);
            }
            let web_app_url = match parse_apps_script_url(raw_url.as_str()) {
                Ok(u) => u,
                Err(e) => return Err(ConfigError::GasUrl(e)),
            };
            youtube_details_from_env(env, web_app_url, api_key)
        },
    }
}

/// The mTLS listener settings; `socket_ok` says whether the trimmed
/// `ACT_API_MTLS_ADDR` parses as an IP socket address.
pub fn parse_mtls_config(env: &EnvSnapshot, socket_ok: bool) -> (r: Result<Option<MtlsConfig>, ConfigError>)
    ensures
        match r {
            Ok(o) => mtls_setting(*env, socket_ok) == Ok::<Option<MtlsView>, ConfigError>(
                opt_mtls_view(o),
            ),
            Err(e) => mtls_setting(*env, socket_ok) == Err::<Option<MtlsView>, ConfigError>(e),
        },
{
    let address = env_non_empty(&env.mtls_addr);
    let certificate_file = env_non_empty(&env.tls_cert_file);
    let private_key_file = env_non_empty(&env.tls_key_file);
    let client_ca_file = env_non_empty(&env.client_ca_file);
    if address.is_none() && certificate_file.is_none() && private_key_file.is_none()
        && client_ca_file.is_none() {
        return Ok(None);
    }
    match (address, certificate_file, private_key_file, client_ca_file) {
        (Some(address), Some(certificate_file), Some(private_key_file), Some(client_ca_file)) => {
            if !socket_ok {
                return Err(ConfigError::MtlsAddressInvalid);
            }
            Ok(Some(MtlsConfig { address, certificate_file, private_key_file, client_ca_file }))
        },
        _ => Err(ConfigError::MtlsIncomplete),
    }
}

impl Config {
    /// The configuration given by the values of the environment.
    /// `mtls_address_is_socket` says whether the trimmed value of
    /// `ACT_API_MTLS_ADDR` parses as an IP socket address.
    pub fn from_env_values(env: &EnvSnapshot, mtls_address_is_socket: bool) -> (r: Result<
        Config,
        ConfigError,
    >)
        ensures
            match r {
                Ok(c) => config_outcome(*env, mtls_address_is_socket) == Ok::<
                    ConfigView,
                    ConfigError,
                >(c@),
                Err(e) => config_outcome(*env, mtls_address_is_socket) == Err::<
                    ConfigView,
                    ConfigError,
                >(e),
            },
    {
        let port = match port_from_env(&env.port) {
            Ok(p) => p,
            Err(e) => return Err(e),
        };
        let nats_url = match env_non_empty(&env.nats_url) {
            Some(v) => v,
            None => String::from_str("nats://localhost:4222"),
        };
        let service_name = match env_non_empty(&env.otel_service_name) {
            Some(v) => v,
            None => String::from_str("act-api-server"),
        };
        let shared_auth = match shared_auth_from_env(
            &env.shared_auth_url,
            &env.shared_auth_service_credential,
        ) {
            Ok(s) => s,
            Err(e) => return Err(e),
        };
        let youtube = match youtube_from_env(env) {
            Ok(y) => y,
            Err(e) => return Err(e),
        };
        match validate_auth_configuration(shared_auth.is_some(), youtube.is_some()) {
            Ok(()) => {},
            Err(e) => return Err(e),
        }
        let operation_database_url = env_non_empty(&env.operation_database_url);
        let operation_attestation_key = env_non_empty(&env.operation_hmac_key);
        let checked = match &operation_attestation_key {
            Some(k) => validate_operation_configuration(
                operation_database_url.is_some(),
                Some(k.as_str()),
            ),
            None => validate_operation_configuration(operation_database_url.is_some(), None),
        };
        match checked {
            Ok(()) => {},
            Err(e) => return Err(e),
        }
        if operation_database_url.is_some() {
            match validate_durable_nats_url(nats_url.as_str()) {
                Ok(()) => {},
                Err(e) => return Err(e),
            }
            if shared_auth.is_none() {
                return Err(ConfigError::DurableWithoutSharedAuth);
            }
        }
        let mtls = match parse_mtls_config(env, mtls_address_is_socket) {
            Ok(m) => m,
            Err(e) => return Err(e),
        };
        if mtls.is_some() && shared_auth.is_none() {
            return Err(ConfigError::MtlsWithoutSharedAuth);
        }
        Ok(
            Config {
                port,
                nats_url,
                service_name,
                shared_auth,
                youtube,
                operation_database_url,
                operation_attestation_key,
                mtls,
            },
        )
    }
}

/// Every accepted configuration is fail-closed: each optional control plane
/// (YouTube, durable JetStream, the mTLS listener) comes with Shared Auth;
/// durable JetStream comes with a strong attestation key and a TLS or
/// loopback NATS URL; and the YouTube settings name a deployed Apps Script
/// web app over https with bounded timeout and response size.
pub proof fn lemma_accepted_config_is_fail_closed(env: EnvSnapshot, socket_ok: bool)
    requires
        config_outcome(env, socket_ok) is Ok,
    ensures
        ({
            let c = config_outcome(env, socket_ok)->Ok_0;
            &&& c.youtube is Some ==> c.shared_auth is Some
            &&& c.operation_database_url is Some ==> {
                &&& c.shared_auth is Some
                &&& c.operation_attestation_key matches Some(k) && byte_len(k) >= 32
                    && !has_control(k)
                &&& durable_nats_allowed(c.nats_url)
            }
            &&& c.operation_attestation_key is Some ==> c.operation_database_url is Some
            &&& c.mtls is Some ==> c.shared_auth is Some && socket_ok
            &&& c.shared_auth matches Some(a) ==> byte_len(a.service_credential) >= 16
                && !has_control(a.service_credential) && a.audience == "act-api"@
            &&& c.youtube matches Some(y) ==> {
                &&& apps_script_check(y.web_app_url) is Ok
                &&& y.web_app_url.scheme == "https"@
                &&& y.web_app_url.host == Some("script.google.com"@)
                &&& y.api_key.len() >= 32
                &&& 1 <= y.timeout_secs <= 120
                &&& 1024 <= y.max_response_bytes <= MAX_ALLOWED_RESPONSE_BYTES
                &&& starts_with(y.expected_channel_handle, "@"@)
            }
        }),
{
}

/// Exactly one of a pair of settings given is always refused.
pub proof fn lemma_half_pairs_are_refused(env: EnvSnapshot, socket_ok: bool)
    ensures
        (non_empty(opt_view(env.youtube_gas_url)) is Some) != (non_empty(
            opt_view(env.youtube_gas_api_key),
        ) is Some) ==> youtube_setting(env) is Err,
        (non_empty(opt_view(env.shared_auth_url)) is Some) != (non_empty(
            opt_view(env.shared_auth_service_credential),
        ) is Some) ==> shared_auth_setting(
            opt_view(env.shared_auth_url),
            opt_view(env.shared_auth_service_credential),
        ) is Err,
        (non_empty(opt_view(env.operation_database_url)) is Some) != (non_empty(
            opt_view(env.operation_hmac_key),
        ) is Some) ==> config_outcome(env, socket_ok) is Err,
{
}

} // verus!
