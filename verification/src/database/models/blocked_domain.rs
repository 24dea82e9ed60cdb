//! Blocked domains of the blocklist table, with their enabled flag.

use vstd::prelude::*;

use crate::clock::now_millis;

verus! {

/// A blocked domain that can be switched off without being removed.
#[derive(Debug, Clone, PartialEq, Eq, Hash)]
pub struct BlockedDomain {
    pub domain: String,
    pub created_at: i64,
    pub enabled: bool,
}

impl BlockedDomain {
    /// A new, enabled blocked domain, created at time `now`.
    pub fn new_at(domain: String, now: i64) -> (d: Self)
        ensures
            d.domain@ == domain@,
            d.created_at == now,
            d.enabled,
    {
        Self { domain, created_at: now, enabled: true }
    }

    /// A new, enabled blocked domain, created now (see [`BlockedDomain::new_at`]).
    pub fn new(domain: String) -> (d: Self)
        ensures
            d.domain@ == domain@,
            d.created_at >= 0,
            d.enabled,
    {
        Self::new_at(domain, now_millis())
    }
}

} // verus!
