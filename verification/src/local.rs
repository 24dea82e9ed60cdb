//! Per-request state of a DNS query.

use std::time::{Duration, Instant};
use vstd::prelude::*;

use crate::clock::{instant_elapsed, instant_now, instant_sub};

verus! {

/// Local state for a DNS request.
#[derive(Debug, Clone, PartialEq, Eq)]
pub struct Local {
    /// Whether the response was served from cache.
    pub cache_hit: bool,
    /// Whether the request has been counted in the metrics.
    pub metrics_recorded: bool,
    /// Whether the request was blocked.
    pub blocked: bool,
    /// When the request was started
    pub time_started: Instant,
}

impl Local {
    /// The time from the start of the request to `now`.
    pub fn elapsed_at(&self, now: Instant) -> (d: Duration)
        ensures
            d == instant_elapsed(now, self.time_started),
    {
        instant_sub(now, self.time_started)
    }

    /// The time since the request started: from its start to the current
    /// reading of the monotonic clock.
    pub fn time_elapsed(&self) -> (d: Duration)
        ensures
            exists|now: Instant| d == #[trigger] instant_elapsed(now, self.time_started),
    {
        let now = instant_now();
        self.elapsed_at(now)
    }
}

impl Default for Local {
    /// A request starting now, not cached, not blocked, not yet counted.
    fn default() -> (l: Self)
        ensures
            !l.cache_hit,
            !l.metrics_recorded,
            !l.blocked,
    {
        Local { cache_hit: false, metrics_recorded: false, blocked: false, time_started: instant_now() }
    }
}

} // verus!
