//! Per-domain query metrics, aggregated into time buckets.

use vstd::prelude::*;

verus! {

/// Query counts of one domain within one time bucket.
#[derive(Debug, Clone)]
pub struct DomainMetrics {
    /// Timestamp of the start of this bucket, in milliseconds since epoch.
    pub bucket_ts: i64,
    /// Queried domain name (qname).
    pub qname: String,
    /// Total number of queries for this domain in this bucket.
    pub total_count: i64,
    /// Total number of blocked queries for this domain in this bucket.
    pub blocked_count: i64,
}

impl DomainMetrics {
    /// A bucket for `qname` starting at `bucket_ts` with both counts at zero.
    pub fn empty(bucket_ts: i64, qname: String) -> (m: Self)
        ensures
            m.bucket_ts == bucket_ts,
            m.qname@ == qname@,
            m.total_count == 0,
            m.blocked_count == 0,
    {
        Self { bucket_ts, qname, total_count: 0, blocked_count: 0 }
    }

    /// Adds the counts of `other` to this bucket.
    pub fn merge(&mut self, other: &Self)
        requires
            i64::MIN <= old(self).total_count + other.total_count <= i64::MAX,
            i64::MIN <= old(self).blocked_count + other.blocked_count <= i64::MAX,
        ensures
            final(self).total_count == old(self).total_count + other.total_count,
            final(self).blocked_count == old(self).blocked_count + other.blocked_count,
            final(self).bucket_ts == old(self).bucket_ts,
            final(self).qname == old(self).qname,
    {
        self.total_count = self.total_count + other.total_count;
        self.blocked_count = self.blocked_count + other.blocked_count;
    }
}

} // verus!
