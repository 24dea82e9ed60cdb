//! Per-client request metrics, aggregated into time buckets.

use vstd::prelude::*;

verus! {

/// One slot of the request timeline.
#[derive(Debug, Clone, Copy, PartialEq, Eq)]
pub struct TimelineBucket {
    /// Timestamp of the start of this bucket, in milliseconds since epoch.
    pub ts: i64,
    /// Total number of requests in this bucket.
    pub total: i64,
    /// Total number of blocked requests in this bucket.
    pub blocked: i64,
    /// Total number of cached requests in this bucket.
    pub cached: i64,
    /// Total number of errored requests in this bucket.
    pub errors: i64,
    /// Sum of the duration of all requests in this bucket in milliseconds
    pub sum_duration: i64,
    /// How wide this bucket is in milliseconds.
    pub bucket_duration: i64,
}

/// Request counts of one client within one time bucket.
#[derive(Debug, Clone)]
pub struct ClientMetrics {
    /// Timestamp of the start of the bucket, in milliseconds since epoch.
    pub bucket_ts: i64,
    /// Client IP or identifier.
    pub client: String,
    /// Total number of requests in this bucket.
    pub total_count: i64,
    /// Total number of blocked requests in this bucket.
    pub blocked_count: i64,
    /// Total number of cached requests in this bucket.
    pub cached_count: i64,
    /// Total number of errored requests in this bucket.
    pub error_count: i64,
    /// Sum of the duration of all requests in this bucket, in milliseconds.
    pub sum_duration: i64,
}

impl ClientMetrics {
    /// A bucket for `client` starting at `bucket_ts` with every count at zero.
    pub fn empty(bucket_ts: i64, client: String) -> (m: Self)
        ensures
            m.bucket_ts == bucket_ts,
            m.client@ == client@,
            m.total_count == 0,
            m.blocked_count == 0,
            m.cached_count == 0,
            m.error_count == 0,
            m.sum_duration == 0,
    {
        Self {
            bucket_ts,
            client,
            total_count: 0,
            blocked_count: 0,
            cached_count: 0,
            error_count: 0,
            sum_duration: 0,
        }
    }
}

/// Request counts summed over buckets (and over clients, unless one is chosen).
#[derive(Debug, Clone, Copy, PartialEq, Eq)]
pub struct GenericMetrics {
    pub total_count: i64,
    /// Total number of blocked requests.
    pub blocked_count: i64,
    /// Total number of cached requests.
    pub cached_count: i64,
    /// Total number of errored requests.
    pub error_count: i64,
    /// Sum of the duration of all requests, in milliseconds.
    pub sum_duration: i64,
}

} // verus!
