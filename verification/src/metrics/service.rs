//! Live counters and batching of metrics events.

use vstd::prelude::*;
use vstd::string::*;

use super::event::{error_row_matches, query_row_matches, ErrorLogEvent, QueryLogEvent};
use crate::database::models::activity_log::ActivityLog;
use crate::database::models::client_metrics::{ClientMetrics, GenericMetrics};
use crate::database::models::domain_metrics::DomainMetrics;
use crate::text::str_eq;

verus! {

/// Counters over every request since the service started (seeded from the
/// stored metrics).
#[derive(Debug, Clone, Copy, PartialEq, Eq)]
pub struct LiveStats {
    /// Total requests
    pub total: usize,
    /// Total queries blocked
    pub blocked: usize,
    /// Total queries cached
    pub cached: usize,
    /// Total errors
    pub errors: usize,
    /// Sum of the duration of all requests
    pub sum_duration: u128,
    /// Live since
    pub live_since: u128,
}

/// 1 if `b` holds, else 0.
pub open spec fn one_if(b: bool) -> int {
    if b {
        1
    } else {
        0
    }
}

/// Whether the counters can take one more query without overflowing.
pub open spec fn can_apply_event(s: LiveStats, ev: QueryLogEvent) -> bool {
    &&& s.total + 1 <= usize::MAX
    &&& s.blocked + one_if(ev.blocked) <= usize::MAX
    &&& s.cached + one_if(ev.cache_hit) <= usize::MAX
    &&& s.sum_duration + ev.dur_ms <= u128::MAX
}

/// Whether the counters can take one more error without overflowing.
pub open spec fn can_apply_error(s: LiveStats, ev: ErrorLogEvent) -> bool {
    &&& s.total + 1 <= usize::MAX
    &&& s.errors + 1 <= usize::MAX
    &&& s.sum_duration + ev.dur_ms <= u128::MAX
}

/// A count from the database, negative values read as zero.
pub open spec fn clamp_count(v: i64) -> i64 {
    if v > 0 {
        v
    } else {
        0
    }
}

impl LiveStats {
    /// Whether one more query can be counted without overflow.
    pub fn can_apply_event(&self, ev: &QueryLogEvent) -> (r: bool)
        ensures
            r == can_apply_event(*self, *ev),
    {
        self.total < usize::MAX && (!ev.blocked || self.blocked < usize::MAX) && (!ev.cache_hit
            || self.cached < usize::MAX) && self.sum_duration <= u128::MAX - ev.dur_ms as u128
    }

    /// Whether one more error can be counted without overflow.
    pub fn can_apply_error(&self, ev: &ErrorLogEvent) -> (r: bool)
        ensures
            r == can_apply_error(*self, *ev),
    {
        self.total < usize::MAX && self.errors < usize::MAX && self.sum_duration <= u128::MAX
            - ev.dur_ms as u128
    }

    /// Counts an answered query.
    pub fn apply_event(&mut self, ev: &QueryLogEvent)
        requires
            can_apply_event(*old(self), *ev),
        ensures
            final(self).total == old(self).total + 1,
            final(self).blocked == old(self).blocked + one_if(ev.blocked),
            final(self).cached == old(self).cached + one_if(ev.cache_hit),
            final(self).errors == old(self).errors,
            final(self).sum_duration == old(self).sum_duration + ev.dur_ms,
            final(self).live_since == old(self).live_since,
    {
        self.total = self.total + 1;
        self.blocked = self.blocked + if ev.blocked {
            1
        } else {
            0
        };
        self.cached = self.cached + if ev.cache_hit {
            1
        } else {
            0
        };
        self.sum_duration = self.sum_duration + ev.dur_ms as u128;
    }

    /// Counts a failed request.
    pub fn apply_error(&mut self, ev: &ErrorLogEvent)
        requires
            can_apply_error(*old(self), *ev),
        ensures
            final(self).total == old(self).total + 1,
            final(self).errors == old(self).errors + 1,
            final(self).blocked == old(self).blocked,
            final(self).cached == old(self).cached,
            final(self).sum_duration == old(self).sum_duration + ev.dur_ms,
            final(self).live_since == old(self).live_since,
    {
        self.total = self.total + 1;
        self.errors = self.errors + 1;
        self.sum_duration = self.sum_duration + ev.dur_ms as u128;
    }

    /// Counters seeded from stored totals: negative totals read as zero.
    pub fn from_totals(m: &GenericMetrics, live_since: u128) -> (s: Self)
        ensures
            s.total == clamp_count(m.total_count) as usize,
            s.blocked == clamp_count(m.blocked_count) as usize,
            s.cached == clamp_count(m.cached_count) as usize,
            s.errors == clamp_count(m.error_count) as usize,
            s.sum_duration == clamp_count(m.sum_duration) as u128,
            s.live_since == live_since,
    {
        let total = if m.total_count > 0 { m.total_count } else { 0 };
        let blocked = if m.blocked_count > 0 { m.blocked_count } else { 0 };
        let cached = if m.cached_count > 0 { m.cached_count } else { 0 };
        let errors = if m.error_count > 0 { m.error_count } else { 0 };
        let sum_duration = if m.sum_duration > 0 { m.sum_duration } else { 0 };
        LiveStats {
            total: total as usize,
            blocked: blocked as usize,
            cached: cached as usize,
            errors: errors as usize,
            sum_duration: sum_duration as u128,
            live_since,
        }
    }
}

/// A message to the metrics service.
#[derive(Debug, Clone)]
pub enum MetricsMessage {
    Shutdown,
    Query(QueryLogEvent),
    Error(ErrorLogEvent),
}

/// Whether the metrics service keeps running after a message.
#[derive(Debug, Clone, Copy, PartialEq, Eq, Structural)]
pub enum LoopControl {
    Continue,
    /// The channel closed or a shutdown was asked for: flush and stop.
    Stop,
}

/// Whether the counters can take `msg` (a closed channel is `None`).
pub open spec fn message_fits(s: LiveStats, msg: Option<MetricsMessage>) -> bool {
    match msg {
        Some(MetricsMessage::Query(ev)) => can_apply_event(s, ev),
        Some(MetricsMessage::Error(ev)) => can_apply_error(s, ev),
        _ => true,
    }
}

/// The state of the metrics service between flushes: the rows not yet
/// written and the live counters.
pub struct MetricsRecorder {
    pub batch: Vec<ActivityLog>,
    pub live: LiveStats,
}

impl MetricsRecorder {
    /// A recorder with no pending rows and the given counters.
    pub fn new(live: LiveStats) -> (r: Self)
        ensures
            r.batch@.len() == 0,
            r.live == live,
    {
        MetricsRecorder { batch: Vec::new(), live }
    }

    /// Whether `msg` can be handled without a counter overflowing.
    pub fn accepts(&self, msg: &Option<MetricsMessage>) -> (r: bool)
        ensures
            r == message_fits(self.live, *msg),
    {
        match msg {
            Some(MetricsMessage::Query(ev)) => self.live.can_apply_event(ev),
            Some(MetricsMessage::Error(ev)) => self.live.can_apply_error(ev),
            _ => true,
        }
    }

    /// Handles one message from the channel (`None` once it has closed):
    /// an event is counted and its row queued; a shutdown or a closed channel
    /// stops the service.
    pub fn handle(&mut self, msg: Option<MetricsMessage>) -> (c: LoopControl)
        requires
            message_fits(old(self).live, msg),
        ensures
            match msg {
                Some(MetricsMessage::Query(ev)) => {
                    &&& c == LoopControl::Continue
                    &&& final(self).batch@.len() == old(self).batch@.len() + 1
                    &&& final(self).batch@.drop_last() == old(self).batch@
                    &&& query_row_matches(ev, final(self).batch@.last())
                    &&& final(self).live.total == old(self).live.total + 1
                    &&& final(self).live.blocked == old(self).live.blocked + one_if(ev.blocked)
                    &&& final(self).live.cached == old(self).live.cached + one_if(ev.cache_hit)
                    &&& final(self).live.errors == old(self).live.errors
                    &&& final(self).live.sum_duration == old(self).live.sum_duration + ev.dur_ms
                    &&& final(self).live.live_since == old(self).live.live_since
                },
                Some(MetricsMessage::Error(ev)) => {
                    &&& c == LoopControl::Continue
                    &&& final(self).batch@.len() == old(self).batch@.len() + 1
                    &&& final(self).batch@.drop_last() == old(self).batch@
                    &&& error_row_matches(ev, final(self).batch@.last())
                    &&& final(self).live.total == old(self).live.total + 1
                    &&& final(self).live.errors == old(self).live.errors + 1
                    &&& final(self).live.blocked == old(self).live.blocked
                    &&& final(self).live.cached == old(self).live.cached
                    &&& final(self).live.sum_duration == old(self).live.sum_duration + ev.dur_ms
                    &&& final(self).live.live_since == old(self).live.live_since
                },
                _ => {
                    &&& c == LoopControl::Stop
                    &&& final(self).batch@ == old(self).batch@
                    &&& final(self).live == old(self).live
                },
            },
    {
        match msg {
            Some(MetricsMessage::Query(ev)) => {
                self.live.apply_event(&ev);
                let row = ev.into_db_model();
                self.batch.push(row);
                assert(self.batch@.drop_last() =~= old(self).batch@);
                LoopControl::Continue
            },
            Some(MetricsMessage::Error(ev)) => {
                self.live.apply_error(&ev);
                let row = ev.into_db_model();
                self.batch.push(row);
                assert(self.batch@.drop_last() =~= old(self).batch@);
                LoopControl::Continue
            },
            _ => LoopControl::Stop,
        }
    }

    /// Takes the pending rows for a flush, leaving none behind.
    pub fn take_batch(&mut self) -> (rows: Vec<ActivityLog>)
        ensures
            rows@ == old(self).batch@,
            final(self).batch@.len() == 0,
            final(self).live == old(self).live,
    {
        let mut rows = Vec::new();
        std::mem::swap(&mut rows, &mut self.batch);
        rows
    }
}

} // verus!
