//! Subscriptions to public block lists.

use vstd::prelude::*;

use crate::clock::now_millis;
use crate::entity_id::{is_v7_uuid, EntityId, ForListSubscription};

verus! {

/// A subscription to a block list published at `url`.
#[derive(Debug, Clone, PartialEq, Eq, Hash)]
pub struct ListSubscription {
    pub id: EntityId<ForListSubscription>,
    pub name: String,
    pub url: String,
    pub created_at: i64,
    pub enabled: bool,
    pub last_synced_at: Option<i64>,
    pub sync_enabled: bool,
    pub etag: Option<String>,
    pub last_modified: Option<String>,
}

impl ListSubscription {
    /// A new subscription, created now, enabled and synced automatically, that
    /// has never been synced.
    pub fn new(name: String, url: String) -> (s: Self)
        ensures
            s.name@ == name@,
            s.url@ == url@,
            s.created_at >= 0,
            s.enabled,
            s.last_synced_at is None,
            s.sync_enabled,
            s.etag is None,
            s.last_modified is None,
            is_v7_uuid(s.id@),
    {
        Self::new_at(name, url, now_millis())
    }

    /// A new subscription created at time `now`, enabled and synced
    /// automatically, that has never been synced.
    pub fn new_at(name: String, url: String, now: i64) -> (s: Self)
        ensures
            s.name@ == name@,
            s.url@ == url@,
            s.created_at == now,
            s.enabled,
            s.last_synced_at is None,
            s.sync_enabled,
            s.etag is None,
            s.last_modified is None,
            is_v7_uuid(s.id@),
    {
        Self {
            id: EntityId::new(),
            name,
            url,
            created_at: now,
            enabled: true,
            last_synced_at: None,
            sync_enabled: true,
            etag: None,
            last_modified: None,
        }
    }
}

} // verus!
