//! Rules that block or allow domains.

use vstd::prelude::*;

use super::ListAction;
use crate::clock::now_millis;
use crate::entity_id::{is_v7_uuid, EntityId, ForDomainRule, ForListSubscription};

verus! {

/// A rule that blocks or allows a domain, written by hand or synced from a
/// list subscription.
#[derive(Debug, Clone, PartialEq, Eq, Hash)]
pub struct DomainRule {
    pub id: EntityId<ForDomainRule>,
    pub domain: String,
    pub action: ListAction,
    pub created_at: i64,
    pub enabled: bool,
    pub subscription_id: Option<EntityId<ForListSubscription>>,
}

impl DomainRule {
    /// A new, enabled rule that blocks `domain`, created now and not tied to
    /// any subscription.
    pub fn new(domain: String) -> (r: Self)
        ensures
            r.domain@ == domain@,
            r.action == ListAction::Block,
            r.enabled,
            r.subscription_id is None,
            r.created_at >= 0,
            is_v7_uuid(r.id@),
    {
        Self::new_at(domain, now_millis())
    }

    /// A new, enabled rule that blocks `domain`, created at time `now` and not
    /// tied to any subscription.
    pub fn new_at(domain: String, now: i64) -> (r: Self)
        ensures
            r.domain@ == domain@,
            r.action == ListAction::Block,
            r.enabled,
            r.subscription_id is None,
            r.created_at == now,
            is_v7_uuid(r.id@),
    {
        Self {
            id: EntityId::new(),
            domain,
            action: ListAction::Block,
            created_at: now,
            enabled: true,
            subscription_id: None,
        }
    }
}

} // verus!
