//! Wall-clock and monotonic time sources.
//!
//! Time is outside what can be proved: the functions here only read the clock,
//! and every caller states what holds whatever value comes back.

use vstd::prelude::*;

verus! {

/// A monotonic point in time (`std::time::Instant`), carried opaquely.
#[verifier::external_type_specification]
#[verifier::external_body]
pub struct ExInstant(std::time::Instant);

/// `Instant::clone`: `Instant` is `Copy`, so a clone is the same instant.
pub assume_specification[ <std::time::Instant as Clone>::clone ](i: &std::time::Instant) -> (r: std::time::Instant)
    ensures
        r == *i,
;

/// Milliseconds since the UNIX epoch, read from `chrono::Utc::now()`.
///
/// The value depends on the system clock; `Utc::now` refuses (panics on) a
/// clock before the epoch, so the reading is never negative. Nothing else is
/// stated of it.
#[verifier::external_body]
pub fn now_millis() -> (ms: i64)
    ensures
        ms >= 0,
{
    chrono::Utc::now().timestamp_millis()
}

/// The current monotonic instant (`std::time::Instant::now`).
#[verifier::external_body]
pub fn instant_now() -> (now: std::time::Instant) {
    std::time::Instant::now()
}

/// The time from `earlier` to `later`, as `Instant - Instant` computes it
/// (zero when `earlier` is the later one).
pub uninterp spec fn instant_elapsed(later: std::time::Instant, earlier: std::time::Instant) -> std::time::Duration;

/// The time between `earlier` and `later` (`Instant - Instant`): a function
/// of the two instants alone. std documents that it saturates to zero when
/// `earlier` is later than `later`; that is not written out here.
#[verifier::external_body]
pub fn instant_sub(later: std::time::Instant, earlier: std::time::Instant) -> (d: std::time::Duration)
    ensures
        d == instant_elapsed(later, earlier),
{
    later - earlier
}

} // verus!
