//! Fail-closed decisions of Shared Auth verification: reading the caller's
//! bearer, classifying introspection failures and accepting introspected
//! claims only for the expected audience and a real subject.
use vstd::prelude::*;

use crate::text::{
    ascii_lowercase, contains_whitespace, eq_ignore_ascii_case, has_whitespace, same_text, trim,
    trimmed,
};
use crate::web_url::opt_view;

verus! {

/// The audience that delegated product tokens must be issued for.
pub const AUDIENCE: &'static str = "act-api";

/// Largest introspection response read from Shared Auth.
pub const MAX_INTROSPECTION_RESPONSE_BYTES: usize = 65536;

#[derive(Clone, Copy, Debug, PartialEq, Eq, Structural)]
pub enum AuthFailure {
    Missing,
    Invalid,
    Unavailable,
}

/// The verified identity of a caller.
#[derive(Clone, Debug, PartialEq, Eq)]
pub struct AuthSubject {
    pub subject: String,
}

/// The index of the first occurrence of `c` at or after `i`, or the length
/// when there is none.
pub open spec fn first_index_of(s: Seq<char>, c: char, i: int) -> int
    decreases s.len() - i,
{
    if i < 0 || i >= s.len() {
        s.len() as int
    } else if s[i] == c {
        i
    } else {
        first_index_of(s, c, i + 1)
    }
}

/// `s` split at its first space (`str::split_once(' ')`).
pub open spec fn split_at_space(s: Seq<char>) -> Option<(Seq<char>, Seq<char>)> {
    let i = first_index_of(s, ' ', 0);
    if i >= s.len() {
        None
    } else {
        Some((s.subrange(0, i), s.subrange(i + 1, s.len() as int)))
    }
}

/// What the `Authorization` header gives: `None` when it is absent or not
/// visible ASCII. It must be `Bearer` (in any case), one space, and a
/// non-empty token without whitespace.
pub open spec fn bearer_outcome(header: Option<Seq<char>>) -> Result<Seq<char>, AuthFailure> {
    match header {
        None => Err(AuthFailure::Missing),
        Some(raw) => match split_at_space(raw) {
            None => Err(AuthFailure::Invalid),
            Some((scheme, token)) => if ascii_lowercase(scheme) != ascii_lowercase("Bearer"@)
                || token.len() == 0 || trimmed(token) != token || has_whitespace(token) {
                Err(AuthFailure::Invalid)
            } else {
                Ok(token)
            },
        },
    }
}

/// The caller's bearer token from the `Authorization` header.
pub fn bearer_token(header: Option<&str>) -> (r: Result<&str, AuthFailure>)
    ensures
        match r {
            Ok(t) => bearer_outcome(opt_str(header)) == Ok::<Seq<char>, AuthFailure>(t@),
            Err(e) => bearer_outcome(opt_str(header)) == Err::<Seq<char>, AuthFailure>(e),
        },
{
    let raw = match header {
        Some(raw) => raw,
        None => return Err(AuthFailure::Missing),
    };
    let n = raw.unicode_len();
    let mut i: usize = 0;
    while i < n && raw.get_char(i) != ' '
        invariant
            n == raw@.len(),
            i <= n,
            first_index_of(raw@, ' ', i as int) == first_index_of(raw@, ' ', 0),
        decreases n - i,
    {
        i = i + 1;
    }
    if i >= n {
        return Err(AuthFailure::Invalid);
    }
    let scheme = raw.substring_char(0, i);
    let token = raw.substring_char(i + 1, n);
    let t = trim(token);
    if !eq_ignore_ascii_case(scheme, "Bearer") || token.unicode_len() == 0 || !same_text(
        t.as_str(),
        token,
    ) || contains_whitespace(token) {
        return Err(AuthFailure::Invalid);
    }
    Ok(token)
}

/// The view of an optional text argument.
pub open spec fn opt_str(o: Option<&str>) -> Option<Seq<char>> {
    match o {
        Some(s) => Some(s@),
        None => None,
    }
}

/// A bearer the parser accepts is exactly the text after `Bearer ` and holds
/// no whitespace.
pub proof fn lemma_accepted_bearer_is_opaque(header: Seq<char>)
    requires
        bearer_outcome(Some(header)) is Ok,
    ensures
        ({
            let t = bearer_outcome(Some(header))->Ok_0;
            &&& t.len() > 0
            &&& !has_whitespace(t)
            &&& split_at_space(header) matches Some((scheme, token)) && token == t
                && ascii_lowercase(scheme) == ascii_lowercase("Bearer"@)
        }),
{
}

/// The failures of the Shared Auth client, by kind.
#[derive(Clone, Copy, Debug, PartialEq, Eq, Structural)]
pub enum IntrospectionError {
    Unauthorized,
    InvalidInput,
    MissingServiceCredential,
    InvalidBaseUrl,
    RequestTooLarge,
    ResponseTooLarge,
    Encode,
    Decode,
    Transport,
    Status,
    InsecureTransport,
}

/// A rejected or malformed token is invalid; every other client failure
/// means Shared Auth could not be asked and the route stays closed.
pub open spec fn failure_for(e: IntrospectionError) -> AuthFailure {
    match e {
        IntrospectionError::Unauthorized | IntrospectionError::InvalidInput => AuthFailure::Invalid,
        _ => AuthFailure::Unavailable,
    }
}

pub fn map_client_error(error: IntrospectionError) -> (r: AuthFailure)
    ensures
        r == failure_for(error),
{
    match error {
        IntrospectionError::Unauthorized | IntrospectionError::InvalidInput => AuthFailure::Invalid,
        IntrospectionError::MissingServiceCredential | IntrospectionError::InvalidBaseUrl
        | IntrospectionError::RequestTooLarge | IntrospectionError::ResponseTooLarge
        | IntrospectionError::Encode | IntrospectionError::Decode | IntrospectionError::Transport
        | IntrospectionError::Status | IntrospectionError::InsecureTransport => AuthFailure::Unavailable,
    }
}

/// Claims are accepted only when the token is active, was issued for the
/// audience, and names a subject that is not blank.
pub open spec fn claims_outcome(
    active: bool,
    aud: Option<Seq<char>>,
    sub: Option<Seq<char>>,
    audience: Seq<char>,
) -> Result<Seq<char>, AuthFailure> {
    if !active || aud != Some(audience) {
        Err(AuthFailure::Invalid)
    } else {
        match sub {
            Some(s) => if trimmed(s).len() > 0 {
                Ok(s)
            } else {
                Err(AuthFailure::Invalid)
            },
            None => Err(AuthFailure::Invalid),
        }
    }
}

/// Decides on introspected claims.
pub fn accept_claims(active: bool, aud: Option<String>, sub: Option<String>, audience: &str) -> (r:
    Result<AuthSubject, AuthFailure>)
    ensures
        match r {
            Ok(s) => claims_outcome(active, opt_view(aud), opt_view(sub), audience@) == Ok::<
                Seq<char>,
                AuthFailure,
            >(s.subject@),
            Err(e) => claims_outcome(active, opt_view(aud), opt_view(sub), audience@) == Err::<
                Seq<char>,
                AuthFailure,
            >(e),
        },
{
    let audience_matches = match &aud {
        Some(a) => same_text(a.as_str(), audience),
        None => false,
    };
    if !active || !audience_matches {
        return Err(AuthFailure::Invalid);
    }
    match sub {
        Some(subject) => {
            if trim(subject.as_str()).as_str().unicode_len() > 0 {
                Ok(AuthSubject { subject })
            } else {
                Err(AuthFailure::Invalid)
            }
        },
        None => Err(AuthFailure::Invalid),
    }
}

} // verus!
