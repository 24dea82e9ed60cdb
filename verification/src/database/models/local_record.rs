//! DNS records answered locally.

use vstd::prelude::*;

use crate::clock::now_millis;

verus! {

/// A DNS record served for a name on the local network.
#[derive(Debug, Clone, PartialEq, Eq)]
pub struct LocalRecord {
    /// Assigned by the database on insert; 0 before that.
    pub id: i64,
    pub name: String,
    pub record_type: u16,
    pub value: String,
    pub ttl: u32,
    pub enabled: bool,
    pub created_at: i64,
}

impl LocalRecord {
    /// A new, enabled record, created now and not yet stored (see
    /// [`LocalRecord::new_at`]).
    pub fn new(name: String, record_type: u16, value: String, ttl: u32) -> (r: Self)
        ensures
            r.id == 0,
            r.name@ == name@,
            r.record_type == record_type,
            r.value@ == value@,
            r.ttl == ttl,
            r.enabled,
            r.created_at >= 0,
    {
        Self::new_at(name, record_type, value, ttl, now_millis())
    }

    /// A new, enabled record, created at time `now` and not yet stored.
    pub fn new_at(name: String, record_type: u16, value: String, ttl: u32, now: i64) -> (r: Self)
        ensures
            r.id == 0,
            r.name@ == name@,
            r.record_type == record_type,
            r.value@ == value@,
            r.ttl == ttl,
            r.enabled,
            r.created_at == now,
    {
        Self { id: 0, name, record_type, value, ttl, enabled: true, created_at: now }
    }
}

} // verus!
