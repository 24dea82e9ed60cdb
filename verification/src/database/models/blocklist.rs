//! Blocked domains of the blocklist table.

use vstd::prelude::*;

use crate::clock::now_millis;

verus! {

/// A blocked domain and when it was added.
#[derive(Debug, Clone, PartialEq, Eq, Hash)]
pub struct BlockedDomain {
    pub domain: String,
    pub created_at: i64,
}

impl BlockedDomain {
    /// A new blocked domain, created at time `now`.
    pub fn new_at(domain: String, now: i64) -> (d: Self)
        ensures
            d.domain@ == domain@,
            d.created_at == now,
    {
        Self { domain, created_at: now }
    }

    /// A new blocked domain, created now (see [`BlockedDomain::new_at`]).
    pub fn new(domain: String) -> (d: Self)
        ensures
            d.domain@ == domain@,
            d.created_at >= 0,
    {
        Self::new_at(domain, now_millis())
    }
}

} // verus!
