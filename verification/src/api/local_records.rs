//! Local DNS records as the HTTP API takes them.

use vstd::prelude::*;

verus! {

/// The time to live of a new record when the request does not say, in seconds.
pub fn default_ttl() -> (t: u32)
    ensures
        t == 300,
{
    300
}

/// A request to add a record.
#[derive(Debug, Clone, PartialEq, Eq)]
pub struct AddRecordPayload {
    pub name: String,
    pub record_type: u16,
    pub value: String,
    pub ttl: u32,
}

/// A request naming a record.
#[derive(Debug, Clone, Copy, PartialEq, Eq)]
pub struct IdPayload {
    pub id: i64,
}

} // verus!
