//! Request statistics: totals, top lists and the timeline.

use vstd::prelude::*;

use super::error::{bad_request_error, ApiError};
use crate::clock::now_millis;
use crate::database::models::client_metrics::{GenericMetrics, TimelineBucket};
use crate::metrics::service::LiveStats;
use crate::metrics::task::{COMPRESS_TO_DAY_AFTER_MS, COMPRESS_TO_HOUR_AFTER_MS, DAY_MS, HOUR_MS, MINUTE_MS};

verus! {

/// The time range a statistics request covers, ending now.
#[derive(Debug, Clone, Copy, PartialEq, Eq, Structural)]
pub enum TopRange {
    FiveMinutes,
    Hour,
    Day,
    Week,
    Month,
    Year,
    All,
}

/// The range of a totals request that names none: everything.
pub fn default_stats_range() -> (r: TopRange)
    ensures
        r == TopRange::All,
{
    TopRange::All
}

/// The range of a top-list or timeline request that names none: a day.
pub fn default_range() -> (r: TopRange)
    ensures
        r == TopRange::Day,
{
    TopRange::Day
}

/// The length of a top list when a request names none.
pub fn default_top() -> (n: usize)
    ensures
        n == 10,
{
    10
}

/// The longest top list a request may ask for.
pub const MAX_TOP_LIMIT: usize = 100;

/// How far back a range reaches, in milliseconds; `None` for everything.
pub open spec fn range_span(range: TopRange) -> Option<int> {
    match range {
        TopRange::FiveMinutes => Some(5 * 60 * 1000 as int),
        TopRange::Hour => Some(60 * 60 * 1000 as int),
        TopRange::Day => Some(24 * 60 * 60 * 1000 as int),
        TopRange::Week => Some(7 * 24 * 60 * 60 * 1000 as int),
        TopRange::Month => Some(30 * 24 * 60 * 60 * 1000 as int),
        TopRange::Year => Some(365 * 24 * 60 * 60 * 1000 as int),
        TopRange::All => None,
    }
}

/// The first millisecond a range covers when it ends at `now`: the span
/// before `now`, or the epoch for everything.
pub open spec fn range_start_at(range: TopRange, now: i64) -> int {
    match range_span(range) {
        Some(span) => now - span,
        None => 0,
    }
}

/// Whether the start of `range` before `now` is a representable time.
pub open spec fn range_start_fits(range: TopRange, now: i64) -> bool {
    range_start_at(range, now) >= i64::MIN
}

/// The first millisecond `range` covers when it ends at `now`.
pub fn range_start(range: TopRange, now: i64) -> (since: i64)
    requires
        range_start_fits(range, now),
    ensures
        since == range_start_at(range, now),
{
    match range {
        TopRange::FiveMinutes => now - 5 * 60 * 1000,
        TopRange::Hour => now - 60 * 60 * 1000,
        TopRange::Day => now - 24 * 60 * 60 * 1000,
        TopRange::Week => now - 7 * 24 * 60 * 60 * 1000,
        TopRange::Month => now - 30 * 24 * 60 * 60 * 1000,
        TopRange::Year => now - 365 * 24 * 60 * 60 * 1000,
        TopRange::All => 0,
    }
}

/// The first millisecond `range` covers, ending at the current time: the
/// range's start before the clock reading, which is never before the epoch.
pub fn range_to_duration(range: TopRange) -> (since: i64)
    ensures
        exists|now: i64| now >= 0 && #[trigger] range_start_at(range, now) == since,
{
    let now = now_millis();
    let since = range_start(range, now);
    assert(range_start_at(range, now) == since);
    since
}

/// The timeline bucket width for a range: at least as wide as the widest
/// stored bucket it covers, so buckets are only ever merged.
pub open spec fn bucket_width_of(range: TopRange) -> int {
    match range {
        TopRange::FiveMinutes | TopRange::Hour => MINUTE_MS as int,
        TopRange::Day => 5 * MINUTE_MS,
        TopRange::Week => HOUR_MS as int,
        TopRange::Month => 3 * HOUR_MS,
        TopRange::Year | TopRange::All => DAY_MS as int,
    }
}

/// The timeline bucket width for `range`, in milliseconds.
pub fn range_to_bucket_width(range: TopRange) -> (w: i64)
    ensures
        w == bucket_width_of(range),
        w >= MINUTE_MS,
{
    match range {
        TopRange::FiveMinutes | TopRange::Hour => MINUTE_MS,
        TopRange::Day => 5 * MINUTE_MS,
        TopRange::Week => HOUR_MS,
        TopRange::Month => 3 * HOUR_MS,
        TopRange::Year | TopRange::All => DAY_MS,
    }
}

/// The widest bucket the metrics store holds for data `age` milliseconds old:
/// minute buckets are compressed into hours after a day and into days after
/// a month.
pub open spec fn stored_bucket_width(age: int) -> int {
    if age <= COMPRESS_TO_HOUR_AFTER_MS {
        MINUTE_MS as int
    } else if age <= COMPRESS_TO_DAY_AFTER_MS {
        HOUR_MS as int
    } else {
        DAY_MS as int
    }
}

/// The timeline of a range only merges stored buckets and never splits one:
/// its bucket width is a multiple of the widest stored bucket it covers.
pub proof fn lemma_bucket_width_only_merges(range: TopRange)
    ensures
        bucket_width_of(range) % stored_bucket_width(
            match range_span(range) {
                Some(span) => span,
                None => COMPRESS_TO_DAY_AFTER_MS + 1,
            },
        ) == 0,
{
    match range {
        TopRange::FiveMinutes => assert(60_000int % 60_000int == 0),
        TopRange::Hour => assert(60_000int % 60_000int == 0),
        TopRange::Day => assert(300_000int % 60_000int == 0),
        TopRange::Week => assert(3_600_000int % 3_600_000int == 0),
        TopRange::Month => assert(10_800_000int % 3_600_000int == 0),
        TopRange::Year => assert(86_400_000int % 86_400_000int == 0),
        TopRange::All => assert(86_400_000int % 86_400_000int == 0),
    }
}

/// Totals of requests over a range.
#[derive(Debug, Clone, Copy, PartialEq, Eq)]
pub struct StatsResponse {
    pub total_queries: u64,
    /// Total queries blocked
    pub total_blocked: u64,
    /// Total queries cached
    pub total_cached: u64,
    /// Total errors
    pub total_errors: u64,
    /// Average response time
    pub average_response_time: u64,
}

/// The average response time from stored totals: the quotient rounded toward
/// zero, zero when it cannot be taken or is negative.
pub open spec fn stored_average(sum: i64, total: i64) -> u64 {
    match sum.checked_div(total) {
        Some(q) => if q > 0 {
            q as u64
        } else {
            0
        },
        None => 0,
    }
}

/// The average response time from live counters: zero without requests,
/// `u64::MAX` when the quotient does not fit.
pub open spec fn live_average(sum: u128, total: usize) -> u64 {
    if total == 0 {
        0
    } else if sum / (total as u128) > u64::MAX {
        u64::MAX
    } else {
        (sum / (total as u128)) as u64
    }
}

impl StatsResponse {
    /// The totals read from stored metrics.
    pub fn from_generic(m: GenericMetrics) -> (r: Self)
        ensures
            r.total_queries == m.total_count as u64,
            r.total_blocked == m.blocked_count as u64,
            r.total_cached == m.cached_count as u64,
            r.total_errors == m.error_count as u64,
            r.average_response_time == stored_average(m.sum_duration, m.total_count),
    {
        let average = match m.sum_duration.checked_div(m.total_count) {
            Some(q) => if q > 0 {
                q as u64
            } else {
                0
            },
            None => 0,
        };
        StatsResponse {
            total_queries: m.total_count as u64,
            total_blocked: m.blocked_count as u64,
            total_cached: m.cached_count as u64,
            total_errors: m.error_count as u64,
            average_response_time: average,
        }
    }

    /// The totals from the live counters.
    pub fn from_live(s: LiveStats) -> (r: Self)
        ensures
            r.total_queries == s.total,
            r.total_blocked == s.blocked,
            r.total_cached == s.cached,
            r.total_errors == s.errors,
            r.average_response_time == live_average(s.sum_duration, s.total),
    {
        let average: u128 = if s.total == 0 {
            0
        } else {
            s.sum_duration / (s.total as u128)
        };
        let average_response_time = if average > (u64::MAX as u128) {
            u64::MAX
        } else {
            average as u64
        };
        StatsResponse {
            total_queries: s.total as u64,
            total_blocked: s.blocked as u64,
            total_cached: s.cached as u64,
            total_errors: s.errors as u64,
            average_response_time,
        }
    }
}

/// Where the totals of a request come from.
#[derive(Debug, Clone, PartialEq, Eq)]
pub enum StatsSource {
    /// The live counters: all clients over all time.
    Live,
    /// The stored metrics, for one client or all, since a time.
    Stored { client: Option<String>, since: i64 },
}

/// A totals request: an optional client (its canonical address) and a range.
#[derive(Debug, Clone, PartialEq, Eq)]
pub struct StatsQuery {
    pub client: Option<String>,
    pub range: TopRange,
}

impl StatsQuery {
    /// Where the totals come from: the live counters for all clients over all
    /// time, otherwise the stored metrics from the start of the range ending
    /// at `now`.
    pub fn source(self, now: i64) -> (r: StatsSource)
        requires
            range_start_fits(self.range, now),
        ensures
            self.client is None && self.range == TopRange::All ==> r == StatsSource::Live,
            !(self.client is None && self.range == TopRange::All) ==> r == (StatsSource::Stored {
                client: self.client,
                since: range_start_at(self.range, now) as i64,
            }),
    {
        if self.client.is_none() && self.range == TopRange::All {
            StatsSource::Live
        } else {
            let since = range_start(self.range, now);
            StatsSource::Stored { client: self.client, since }
        }
    }
}

/// The length of a top list as the database takes it: a bad request unless
/// it is between 1 and the largest list.
pub fn validate_top(top: usize) -> (r: Result<i64, ApiError>)
    ensures
        r is Ok <==> 1 <= top <= MAX_TOP_LIMIT,
        r matches Ok(n) ==> n == top,
        r matches Err(e) ==> e@ == bad_request_error(),
{
    if (top as u64) > (i64::MAX as u64) {
        return Err(ApiError::bad_request());
    }
    let db_top = top as i64;
    if db_top <= 0 || db_top > (MAX_TOP_LIMIT as i64) {
        return Err(ApiError::bad_request());
    }
    Ok(db_top)
}

/// A top-list request.
#[derive(Debug, Clone, Copy, PartialEq, Eq)]
pub struct TopQuery {
    pub top: usize,
    pub range: TopRange,
}

/// A timeline request.
#[derive(Debug, Clone, Copy, PartialEq, Eq)]
pub struct TimelineQuery {
    pub range: TopRange,
}

/// One entry of a top list.
#[derive(Debug, Clone, PartialEq, Eq)]
pub struct TopEntry {
    pub name: String,
    pub count: i64,
}

/// The top clients, domains and blocked domains.
#[derive(Debug, Clone, PartialEq, Eq)]
pub struct TopResponse {
    pub clients: Vec<TopEntry>,
    pub domains: Vec<TopEntry>,
    pub blocked_domains: Vec<TopEntry>,
}

/// The request counts over time.
#[derive(Debug, Clone, PartialEq, Eq)]
pub struct TimelineResponse {
    pub buckets: Vec<TimelineBucket>,
}

/// Top-list entries from `(name, count)` rows, in the same order.
pub fn top_entries(rows: Vec<(String, i64)>) -> (entries: Vec<TopEntry>)
    ensures
        entries@.len() == rows@.len(),
        forall|i: int|
            0 <= i < rows@.len() ==> (#[trigger] entries@[i]).name == rows@[i].0 && entries@[i].count
                == rows@[i].1,
{
    let mut entries: Vec<TopEntry> = Vec::new();
    let mut i: usize = 0;
    while i < rows.len()
        invariant
            i <= rows@.len(),
            entries@.len() == i,
            forall|k: int|
                0 <= k < i ==> (#[trigger] entries@[k]).name == rows@[k].0 && entries@[k].count
                    == rows@[k].1,
        decreases rows@.len() - i,
    {
        let row = &rows[i];
        entries.push(TopEntry { name: row.0.clone(), count: row.1 });
        i = i + 1;
    }
    entries
}

} // verus!
