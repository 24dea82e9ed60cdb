//! Rows of the DNS error log.

use vstd::prelude::*;

verus! {

/// One DNS request that failed.
#[derive(Debug, Clone)]
pub struct DnsErrorLog {
    pub ts_ms: i64,
    pub transport: i64,
    pub client: String,
    pub message: String,
    /// The kind of failure (stored in the `type` column).
    pub error_type: i64,
    pub dur_ms: i64,
    pub qname: Option<String>,
    pub qtype: Option<i64>,
}

} // verus!
