use act_api_server::auth::{
    accept_claims, bearer_token, map_client_error, AuthFailure, IntrospectionError, AUDIENCE,
};

#[test]
fn bearer_parser_accepts_one_opaque_token() {
    assert_eq!(
        bearer_token(Some("Bearer opaque-product-token")),
        Ok("opaque-product-token")
    );
}

#[test]
fn bearer_parser_rejects_missing_malformed_or_ambiguous_values() {
    assert_eq!(bearer_token(None), Err(AuthFailure::Missing));
    for value in ["Basic token", "Bearer", "Bearer token extra", "Bearer  token"] {
        assert_eq!(bearer_token(Some(value)), Err(AuthFailure::Invalid));
    }
}

#[test]
fn bearer_scheme_is_case_insensitive() {
    assert_eq!(bearer_token(Some("bearer abc")), Ok("abc"));
    assert_eq!(bearer_token(Some("BEARER abc")), Ok("abc"));
    assert_eq!(bearer_token(Some("Bearer\tabc")), Err(AuthFailure::Invalid));
}

#[test]
fn client_failures_are_invalid_or_unavailable() {
    assert_eq!(map_client_error(IntrospectionError::Unauthorized), AuthFailure::Invalid);
    assert_eq!(map_client_error(IntrospectionError::InvalidInput), AuthFailure::Invalid);
    assert_eq!(map_client_error(IntrospectionError::Transport), AuthFailure::Unavailable);
    assert_eq!(map_client_error(IntrospectionError::InsecureTransport), AuthFailure::Unavailable);
}

#[test]
fn claims_need_activity_audience_and_a_subject() {
    let subject = accept_claims(true, Some(AUDIENCE.to_string()), Some("user-1".to_string()), AUDIENCE)
        .expect("accepted");
    assert_eq!(subject.subject, "user-1");
    assert_eq!(
        accept_claims(false, Some(AUDIENCE.to_string()), Some("user-1".to_string()), AUDIENCE),
        Err(AuthFailure::Invalid)
    );
    assert_eq!(
        accept_claims(true, Some("other".to_string()), Some("user-1".to_string()), AUDIENCE),
        Err(AuthFailure::Invalid)
    );
    assert_eq!(
        accept_claims(true, Some(AUDIENCE.to_string()), Some("   ".to_string()), AUDIENCE),
        Err(AuthFailure::Invalid)
    );
    assert_eq!(
        accept_claims(true, Some(AUDIENCE.to_string()), None, AUDIENCE),
        Err(AuthFailure::Invalid)
    );
}
