use reso::api::domain_rules::{default_action, default_match_type};
use reso::api::list_subscriptions::{default_sync_enabled, AddPayload, ListSubscriptionResponse};
use reso::api::local_records::default_ttl;
use reso::database::models::activity_log::{ListFilter, SortColumn, SortDir};
use reso::database::models::api_key::{ApiKey, API_KEY_PREFIX};
use reso::database::models::blocklist::BlockedDomain;
use reso::database::models::domain_rule::DomainRule;
use reso::database::models::list_subscription::ListSubscription;
use reso::database::models::local_record::LocalRecord;
use reso::database::models::user::User;
use reso::database::models::user_session::{UserSession, INACTIVE_SESSION_TIMEOUT};
use reso::database::models::{ListAction, MatchType};
use reso::database::query::{escape_like, WhereBuilder};
use reso::database::SqlValue;
use reso::entity_id::{EntityId, ForUser};

#[test]
fn test_blocked_domain_new() {
    let domain = BlockedDomain::new("example.com".to_string());
    assert_eq!(domain.domain, "example.com");
    assert!(domain.created_at > 0);
}

#[test]
fn test_blocked_domain_clone() {
    let domain1 = BlockedDomain::new("test.com".to_string());
    let domain2 = domain1.clone();

    assert_eq!(domain1.domain, domain2.domain);
    assert_eq!(domain1.created_at, domain2.created_at);
}

#[test]
fn test_blocked_domain_equality() {
    let domain1 = BlockedDomain { domain: "example.com".to_string(), created_at: 123456 };
    let domain2 = BlockedDomain { domain: "example.com".to_string(), created_at: 123456 };

    assert_eq!(domain1, domain2);
}

#[test]
fn test_user_new() {
    let user = User::new("testuser", "hash123");
    assert_eq!(user.name, "testuser");
    assert_eq!(user.password_hash, "hash123");
    assert!(user.created_at > 0);
}

#[test]
fn new_session_expires_a_week_after_creation() {
    let s = UserSession::new(EntityId::<ForUser>::new());
    assert_eq!(s.expires_at, s.created_at + INACTIVE_SESSION_TIMEOUT);
    assert!(!s.is_expired());
    assert!(!s.is_expired_at(s.expires_at));
    assert!(s.is_expired_at(s.expires_at + 1));
    assert!(s.is_expired_at(i64::MAX));
}

#[test]
fn api_key_token_and_hash() {
    let (key, token) = ApiKey::new("ci".to_string(), EntityId::<ForUser>::new(), None);
    assert!(token.starts_with(API_KEY_PREFIX));
    assert_eq!(token.len(), 5 + 64);
    assert!(token[5..].chars().all(|c| c.is_ascii_hexdigit() && !c.is_ascii_uppercase()));
    assert_eq!(key.key_hash, ApiKey::hash_token(&token));
    assert_eq!(key.key_hash.len(), 64);
    assert!(!key.is_expired());
    let (_, other) = ApiKey::new("ci".to_string(), EntityId::<ForUser>::new(), None);
    assert_ne!(token, other);
}

#[test]
fn hash_token_is_sha256_hex() {
    assert_eq!(ApiKey::hash_token("abc"), "ba7816bf8f01cfea414140de5dae2223b00361a396177a9cb410ff61f20015ad");
}

#[test]
fn api_key_expiry_is_monotone() {
    let (key, _) = ApiKey::new("k".to_string(), EntityId::<ForUser>::new(), Some(1_000));
    assert!(!key.is_expired_at(999));
    assert!(key.is_expired_at(1_000));
    assert!(key.is_expired_at(5_000));
    assert!(key.is_expired());
}

#[test]
fn new_models_have_their_defaults() {
    let rule = DomainRule::new("ads.example".to_string());
    assert_eq!((rule.domain.as_str(), rule.action, rule.enabled), ("ads.example", ListAction::Block, true));
    assert!(rule.subscription_id.is_none());
    let sub = ListSubscription::new("List".to_string(), "https://e.x/l.txt".to_string());
    assert!(sub.enabled && sub.sync_enabled && sub.last_synced_at.is_none());
    let rec = LocalRecord::new("nas.home".to_string(), 1, "192.168.1.2".to_string(), 300);
    assert_eq!((rec.id, rec.record_type, rec.ttl, rec.enabled), (0, 1, 300, true));
}

#[test]
fn payload_defaults() {
    assert_eq!(default_match_type(), MatchType::Domain);
    assert_eq!(default_action(), ListAction::Block);
    assert!(default_sync_enabled());
    assert_eq!(default_ttl(), 300);
}

#[test]
fn list_subscription_listing_and_request() {
    let sub = AddPayload { name: "L".to_string(), url: "https://x/l".to_string(), sync_enabled: false }
        .into_subscription();
    assert!(!sub.sync_enabled && sub.enabled);
    let resp = ListSubscriptionResponse::from_with_count(sub.clone(), 12);
    assert_eq!((resp.name.as_str(), resp.url.as_str(), resp.domain_count), ("L", "https://x/l", 12));
    assert_eq!(resp.id, sub.id);
}

#[test]
fn match_type_and_action_round_trip_through_sql_text() {
    for m in [MatchType::Exact, MatchType::Wildcard, MatchType::Domain] {
        assert_eq!(MatchType::from_sql_text(m.as_sql()), Ok(m));
    }
    for a in [ListAction::Block, ListAction::Allow] {
        assert_eq!(ListAction::from_sql_text(a.as_sql()), Ok(a));
    }
    assert_eq!(MatchType::from_sql_text("regex"), Err("unknown match type: regex".to_string()));
    assert_eq!(ListAction::from_sql_text("drop"), Err("unknown list action: drop".to_string()));
}

#[test]
fn sort_columns_and_directions() {
    assert_eq!(SortColumn::Timestamp.as_sql(), "ts_ms");
    assert_eq!(SortDir::Asc.as_sql(), "ASC");
    assert_eq!(SortDir::Desc.as_sql(), "DESC");
}

#[test]
fn escape_like_escapes_wildcards() {
    assert_eq!(escape_like(r"50%_a\b"), r"50\%\_a\\b");
    assert_eq!(escape_like("plain"), "plain");
}

#[test]
fn where_builder_numbers_parameters_after_the_offset() {
    let mut b = WhereBuilder::new(2);
    b.like("name", "a%");
    b.eq("enabled", SqlValue::Integer(1));
    b.raw("AND 1=1");
    let (sql, params) = b.build();
    assert_eq!(sql, r"AND name LIKE ?3 ESCAPE '\' AND enabled = ?4 AND 1=1");
    assert_eq!(params, vec![SqlValue::Text(r"%a\%%".to_string()), SqlValue::Integer(1)]);
}

#[test]
fn list_filter_builds_bound_clauses() {
    let f = ListFilter {
        client: Some("10.0.0.1".to_string()),
        qname: None,
        qtype: Some(28),
        blocked: Some(true),
        cache_hit: None,
        rate_limited: None,
        error_only: true,
    };
    let (sql, params) = f.build_where(2);
    assert_eq!(sql, "AND client = ?3 AND qtype = ?4 AND blocked = ?5 AND kind = 'error'");
    assert_eq!(params, vec![SqlValue::Text("10.0.0.1".to_string()), SqlValue::Integer(28), SqlValue::Integer(1)]);
    let (sql, params) = ListFilter::default().build_where(0);
    assert_eq!(sql, "");
    assert!(params.is_empty());
}

#[test]
fn entity_id_bytes_round_trip() {
    let id = EntityId::<ForUser>::new();
    let bytes = id.to_bytes();
    assert_eq!(bytes.len(), 16);
    let back = EntityId::<ForUser>::from_bytes(&bytes).unwrap();
    assert_eq!(back, id);
    assert!(EntityId::<ForUser>::from_bytes(&bytes[..15]).is_none());
    assert_eq!(EntityId::<ForUser>::from_u128(0x0102).to_bytes()[14..], [1u8, 2u8]);
}

#[test]
fn filter_values_never_enter_the_sql_text() {
    let payload = "example.com' OR '1'='1";
    let evil = ListFilter { qname: Some(payload.to_string()), ..ListFilter::default() };
    let plain = ListFilter { qname: Some("a.com".to_string()), ..ListFilter::default() };
    let (evil_sql, evil_params) = evil.build_where(2);
    let (plain_sql, _) = plain.build_where(2);
    assert_eq!(evil_sql, plain_sql);
    assert!(!evil_sql.contains("OR"));
    assert_eq!(evil_params, vec![SqlValue::Text(payload.to_string())]);
}

#[test]
fn new_ids_are_version_7_uuids() {
    for _ in 0..5 {
        let bytes = EntityId::<ForUser>::new().to_bytes();
        assert_eq!(bytes[6] >> 4, 7);
        assert_eq!(bytes[8] >> 6, 0b10);
    }
}

#[test]
fn constructors_record_the_given_time() {
    assert_eq!(BlockedDomain::new_at("a.com".to_string(), 42).created_at, 42);
    let u = User::new_at("bob", "h", 7);
    assert_eq!((u.name.as_str(), u.created_at), ("bob", 7));
    let s = UserSession::new_at(EntityId::<ForUser>::new(), 1_000);
    assert_eq!((s.created_at, s.expires_at), (1_000, 1_000 + INACTIVE_SESSION_TIMEOUT));
    let late = UserSession::new_at(EntityId::<ForUser>::new(), i64::MAX - 1);
    assert_eq!(late.expires_at, i64::MAX);
    assert_eq!(DomainRule::new_at("d.com".to_string(), 5).created_at, 5);
    assert_eq!(ListSubscription::new_at("L".to_string(), "u".to_string(), 6).created_at, 6);
    assert_eq!(LocalRecord::new_at("n".to_string(), 1, "v".to_string(), 60, 9).created_at, 9);
    let (k, _) = ApiKey::new_at("k".to_string(), EntityId::<ForUser>::new(), None, 11);
    assert_eq!(k.created_at, 11);
}
