use reso::api::api_keys::{ApiKeyResponse, CreatePayload, CreatedApiKeyResponse};
use reso::api::error::ApiError;
use reso::database::models::api_key::ApiKey;
use reso::entity_id::{EntityId, ForUser};

#[test]
fn api_key_listing_never_shows_the_token() {
    let (key, token) = ApiKey::new("deploy".to_string(), EntityId::<ForUser>::new(), Some(99));
    let id = key.id.duplicate();
    let listed = ApiKeyResponse::from_listed(key.clone(), "alice".to_string());
    assert_eq!((listed.display_name.as_str(), listed.created_by.as_str(), listed.expires_at), ("deploy", "alice", Some(99)));
    assert_eq!(listed.id, id);
    let created = CreatedApiKeyResponse::from_created(key, "alice".to_string(), token.clone());
    assert_eq!(created.token, token);
}

#[test]
fn keys_may_not_expire_in_the_past() {
    let p = CreatePayload { display_name: "k".to_string(), expires_at: Some(1_000) };
    assert_eq!(p.check_expiry(1_000), Ok(()));
    let e = p.check_expiry(1_001).unwrap_err();
    assert_eq!(e.status_code, 400);
    assert_eq!(e.error, "bad_request");
    assert_eq!(e.message, "API key cannot expire in the past");
    let never = CreatePayload { display_name: "k".to_string(), expires_at: None };
    assert_eq!(never.check_expiry(i64::MAX), Ok::<(), ApiError>(()));
}
