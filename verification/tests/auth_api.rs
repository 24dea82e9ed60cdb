use reso::api::auth::{
    choose_auth, session_from_cookie, strip_bearer, verify_api_key, verify_session, AllowedAuthMethods, AuthAttempt,
    CheckResponse, SessionRejection,
};
use reso::database::models::api_key::ApiKey;
use reso::database::models::user_session::UserSession;
use reso::api::cookie::{encrypt_session_id, SessionCipher};
use reso::api::error::ApiError;
use reso::entity_id::{EntityId, ForSession, ForUser};

#[test]
fn allowed_methods_as_flags() {
    let session = AllowedAuthMethods::session();
    let key = AllowedAuthMethods::api_key();
    assert_eq!(session.bits(), 1);
    assert_eq!(key.bits(), 2);
    let both = session.union(key);
    assert_eq!(both.bits(), 3);
    assert!(both.contains(session) && both.contains(key));
    assert!(!session.contains(key) && !key.contains(session));
}

#[test]
fn strip_bearer_takes_what_follows_the_prefix() {
    assert_eq!(strip_bearer("Bearer reso_abc"), Some("reso_abc".to_string()));
    assert_eq!(strip_bearer("Bearer "), Some(String::new()));
    assert_eq!(strip_bearer("bearer reso_abc"), None);
    assert_eq!(strip_bearer("Basic xyz"), None);
    assert_eq!(strip_bearer("Bear"), None);
}

#[test]
fn choose_auth_prefers_the_cookie() {
    let both = AllowedAuthMethods::session().union(AllowedAuthMethods::api_key());
    assert_eq!(
        choose_auth(both, Some("c".to_string()), Some("Bearer k")),
        AuthAttempt::Session("c".to_string())
    );
    assert_eq!(choose_auth(both, None, Some("Bearer k")), AuthAttempt::ApiKey("k".to_string()));
    assert_eq!(choose_auth(both, None, Some("Token k")), AuthAttempt::Reject);
    assert_eq!(choose_auth(both, None, None), AuthAttempt::Reject);
}

#[test]
fn choose_auth_ignores_methods_the_route_refuses() {
    let session = AllowedAuthMethods::session();
    assert_eq!(choose_auth(session, None, Some("Bearer k")), AuthAttempt::Reject);
    let key = AllowedAuthMethods::api_key();
    assert_eq!(choose_auth(key, Some("c".to_string()), Some("Bearer k")), AuthAttempt::ApiKey("k".to_string()));
    assert_eq!(choose_auth(key, Some("c".to_string()), None), AuthAttempt::Reject);
}

#[test]
fn session_from_cookie_maps_failures_to_invalid_credentials() {
    let cipher = SessionCipher::new(&[3u8; 32]).unwrap();
    let id = EntityId::<ForSession>::new();
    let cookie = encrypt_session_id(&cipher, id.duplicate()).unwrap();
    assert_eq!(session_from_cookie(&cipher, &cookie).unwrap().as_u128(), id.as_u128());
    assert_eq!(session_from_cookie(&cipher, "garbage!").unwrap_err(), ApiError::invalid_credentials());
}

#[test]
fn check_response_requires_setup_without_users() {
    assert_eq!(CheckResponse::new(0, true), CheckResponse { authenticated: false, setup_required: true });
    assert_eq!(CheckResponse::new(2, true), CheckResponse { authenticated: true, setup_required: false });
    assert_eq!(CheckResponse::new(2, false), CheckResponse { authenticated: false, setup_required: false });
}

#[test]
fn sessions_are_accepted_until_they_expire() {
    let s = UserSession::new(EntityId::<ForUser>::new());
    let at = s.expires_at;
    let ok = verify_session(Some(s.clone()), at).unwrap();
    assert_eq!(ok.id, s.id);
    match verify_session(Some(s.clone()), at + 1) {
        Err(SessionRejection::Expired(id)) => assert_eq!(id, s.id),
        other => panic!("expected an expired session, got {other:?}"),
    }
    assert_eq!(verify_session(None, at).unwrap_err(), SessionRejection::Unknown);
    assert_eq!(SessionRejection::Unknown.answer(), ApiError::invalid_credentials());
    assert_eq!(SessionRejection::Expired(s.id).answer(), ApiError::session_expired());
}

#[test]
fn api_keys_are_accepted_until_they_expire() {
    let (key, _) = ApiKey::new("k".to_string(), EntityId::<ForUser>::new(), Some(1_000));
    assert_eq!(verify_api_key(Some(key.clone()), 999), Ok(key.id.duplicate()));
    assert_eq!(verify_api_key(Some(key), 1_000), Err(ApiError::invalid_credentials()));
    assert_eq!(verify_api_key(None, 0), Err(ApiError::invalid_credentials()));
}
