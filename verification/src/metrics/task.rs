//! Periodic maintenance of the metrics database: truncating old activity logs
//! and compressing old metric buckets into wider ones.

use vstd::prelude::*;

verus! {

pub const MINUTE_MS: i64 = 60_000;
pub const HOUR_MS: i64 = 3_600_000;
pub const DAY_MS: i64 = 86_400_000;

/// Buckets older than this are rolled up from 1-minute to 1-hour buckets.
pub const COMPRESS_TO_HOUR_AFTER_MS: i64 = 86_400_000;
/// Buckets older than this are rolled up from 1 hour to 1 day buckets.
pub const COMPRESS_TO_DAY_AFTER_MS: i64 = 2_678_400_000;

/// The shortest interval between two truncation runs, in seconds.
pub const MIN_TRUNCATE_INTERVAL_SECS: u64 = 60;

/// `v`, raised to `min` when below it.
pub open spec fn at_least(v: u64, min: u64) -> u64 {
    if v < min {
        min
    } else {
        v
    }
}

/// The settings of the log truncation task.
#[derive(Debug, Clone, Copy, PartialEq, Eq)]
pub struct TruncationSchedule {
    /// Whether old activity logs are deleted at all.
    pub enabled: bool,
    /// How long activity logs are kept, in seconds.
    pub retention_secs: u64,
    /// Seconds between two truncation runs (at least one minute).
    pub interval_secs: u64,
}

/// Which settings a configuration change altered.
#[derive(Debug, Clone, Copy, PartialEq, Eq)]
pub struct ScheduleChange {
    pub enabled_changed: bool,
    /// The timer must be restarted with the new interval.
    pub interval_changed: bool,
    pub retention_changed: bool,
}

/// The cutoff for deleting logs: `now` less the retention period (both in ms).
pub open spec fn truncation_cutoff(now_ms: i64, retention_secs: u64) -> int {
    now_ms - ((retention_secs * 1000) as i64)
}

impl TruncationSchedule {
    /// The schedule as first read from the configuration: the interval is
    /// raised to one minute if shorter.
    pub fn from_config(enabled: bool, retention_secs: u64, truncate_interval_secs: u64) -> (s: Self)
        ensures
            s.enabled == enabled,
            s.retention_secs == retention_secs,
            s.interval_secs == at_least(truncate_interval_secs, MIN_TRUNCATE_INTERVAL_SECS),
    {
        let interval_secs = if truncate_interval_secs < MIN_TRUNCATE_INTERVAL_SECS {
            MIN_TRUNCATE_INTERVAL_SECS
        } else {
            truncate_interval_secs
        };
        Self { enabled, retention_secs, interval_secs }
    }

    /// Applies a changed configuration. The interval is raised to one minute
    /// and a new retention to one second if shorter; a setting counts as
    /// changed when the configured value differs from the one in force.
    pub fn apply_config(&mut self, enabled: bool, retention_secs: u64, truncate_interval_secs: u64) -> (c: ScheduleChange)
        ensures
            c.enabled_changed == (enabled != old(self).enabled),
            final(self).enabled == enabled,
            c.interval_changed == (at_least(truncate_interval_secs, MIN_TRUNCATE_INTERVAL_SECS)
                != old(self).interval_secs),
            final(self).interval_secs == at_least(truncate_interval_secs, MIN_TRUNCATE_INTERVAL_SECS),
            c.retention_changed == (retention_secs != old(self).retention_secs),
            final(self).retention_secs == if c.retention_changed {
                at_least(retention_secs, 1)
            } else {
                old(self).retention_secs
            },
    {
        let new_interval = if truncate_interval_secs < MIN_TRUNCATE_INTERVAL_SECS {
            MIN_TRUNCATE_INTERVAL_SECS
        } else {
            truncate_interval_secs
        };
        let enabled_changed = enabled != self.enabled;
        if enabled_changed {
            self.enabled = enabled;
        }
        let interval_changed = new_interval != self.interval_secs;
        if interval_changed {
            self.interval_secs = new_interval;
        }
        let retention_changed = retention_secs != self.retention_secs;
        if retention_changed {
            self.retention_secs = if retention_secs < 1 {
                1
            } else {
                retention_secs
            };
        }
        ScheduleChange { enabled_changed, interval_changed, retention_changed }
    }

    /// Whether the cutoff at `now_ms` can be computed without overflow.
    pub fn cutoff_in_range(&self, now_ms: i64) -> (r: bool)
        ensures
            r == (i64::MIN <= truncation_cutoff(now_ms, self.retention_secs) <= i64::MAX),
    {
        let retention_ms = ((self.retention_secs as u128) * 1000) as i64;
        if retention_ms >= 0 {
            now_ms >= i64::MIN + retention_ms
        } else {
            now_ms <= i64::MAX + retention_ms
        }
    }

    /// On a timer tick: the timestamp before which logs are deleted, or `None`
    /// when truncation is disabled.
    pub fn on_tick(&self, now_ms: i64) -> (r: Option<i64>)
        requires
            i64::MIN <= truncation_cutoff(now_ms, self.retention_secs) <= i64::MAX,
        ensures
            !self.enabled ==> r is None,
            self.enabled ==> r == Some(truncation_cutoff(now_ms, self.retention_secs) as i64),
    {
        if !self.enabled {
            return None;
        }
        let retention_ms = ((self.retention_secs as u128) * 1000) as i64;
        Some(now_ms - retention_ms)
    }
}

/// A schedule never runs more often than once a minute, however it is configured.
pub proof fn lemma_interval_at_least_a_minute(v: u64)
    ensures
        at_least(v, MIN_TRUNCATE_INTERVAL_SECS) >= 60,
{
}

/// The two compression cutoffs at `now_ms`: buckets before the first are
/// rolled into hours, buckets before the second into days.
pub fn compression_cutoffs(now_ms: i64) -> (r: (i64, i64))
    requires
        now_ms >= i64::MIN + COMPRESS_TO_DAY_AFTER_MS,
    ensures
        r.0 == now_ms - COMPRESS_TO_HOUR_AFTER_MS,
        r.1 == now_ms - COMPRESS_TO_DAY_AFTER_MS,
        r.1 < r.0,
{
    (now_ms - COMPRESS_TO_HOUR_AFTER_MS, now_ms - COMPRESS_TO_DAY_AFTER_MS)
}

} // verus!
