//! List subscriptions as the HTTP API takes and shows them.

use vstd::prelude::*;

use crate::database::models::list_subscription::ListSubscription;
use crate::entity_id::{EntityId, ForListSubscription};

verus! {

/// A subscription with the number of domain rules it has brought in.
#[derive(Debug, Clone, PartialEq, Eq)]
pub struct ListSubscriptionResponse {
    pub id: EntityId<ForListSubscription>,
    pub name: String,
    pub url: String,
    pub enabled: bool,
    pub created_at: i64,
    pub last_synced_at: Option<i64>,
    pub domain_count: i64,
    pub sync_enabled: bool,
}

impl ListSubscriptionResponse {
    /// The listing of subscription `s`, which has `domain_count` rules.
    pub fn from_with_count(s: ListSubscription, domain_count: i64) -> (r: Self)
        ensures
            r.id@ == s.id@,
            r.name@ == s.name@,
            r.url@ == s.url@,
            r.enabled == s.enabled,
            r.created_at == s.created_at,
            r.last_synced_at == s.last_synced_at,
            r.domain_count == domain_count,
            r.sync_enabled == s.sync_enabled,
    {
        ListSubscriptionResponse {
            id: s.id,
            name: s.name,
            url: s.url,
            enabled: s.enabled,
            created_at: s.created_at,
            last_synced_at: s.last_synced_at,
            domain_count,
            sync_enabled: s.sync_enabled,
        }
    }
}

/// Whether a new subscription is synced automatically when the request does not say.
pub fn default_sync_enabled() -> (b: bool)
    ensures
        b,
{
    true
}

/// A request to subscribe to a list.
#[derive(Debug, Clone, PartialEq, Eq)]
pub struct AddPayload {
    pub name: String,
    pub url: String,
    pub sync_enabled: bool,
}

impl AddPayload {
    /// The subscription the request asks for: a new one with its name, URL
    /// and sync setting.
    pub fn into_subscription(self) -> (s: ListSubscription)
        ensures
            s.name@ == self.name@,
            s.url@ == self.url@,
            s.enabled,
            s.last_synced_at is None,
            s.sync_enabled == self.sync_enabled,
            s.etag is None,
            s.last_modified is None,
    {
        let mut sub = ListSubscription::new(self.name, self.url);
        sub.sync_enabled = self.sync_enabled;
        sub
    }
}

/// A request naming a subscription.
#[derive(Debug, Clone, PartialEq, Eq)]
pub struct IdPayload {
    pub id: EntityId<ForListSubscription>,
}

} // verus!
