//! Rows of the DNS query log.

use vstd::prelude::*;

verus! {

/// One answered DNS query.
#[derive(Debug, Clone)]
pub struct DnsQueryLog {
    pub ts_ms: i64,
    pub transport: i64,
    pub client: String,
    pub qname: String,
    pub qtype: i64,
    pub rcode: i64,
    pub blocked: bool,
    pub cache_hit: bool,
    pub dur_ms: i64,
    pub rate_limited: bool,
}

} // verus!
