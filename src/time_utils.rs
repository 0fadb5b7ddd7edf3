//! Durations, counted in whole milliseconds.
use std::time::Duration;
use vstd::prelude::*;

verus! {

/// The total number of nanoseconds in `d`, as `Duration::as_nanos` returns it.
pub uninterp spec fn duration_nanos(d: Duration) -> nat;

/// The total number of whole milliseconds in `d`.
pub open spec fn duration_millis(d: Duration) -> nat {
    duration_nanos(d) / 1_000_000
}

/// Relies on `Duration::from_millis`: a duration of exactly `millis` milliseconds.
pub assume_specification[ core::time::Duration::from_millis ](millis: u64) -> (r: Duration)
    ensures
        duration_nanos(r) == millis * 1_000_000,
;

/// Relies on `Duration::from_secs`: a duration of exactly `secs` seconds.
pub assume_specification[ core::time::Duration::from_secs ](secs: u64) -> (r: Duration)
    ensures
        duration_nanos(r) == secs * 1_000_000_000,
;

/// Relies on `Duration::as_millis`: the whole milliseconds it holds.
pub assume_specification[ core::time::Duration::as_millis ](d: &Duration) -> (r: u128)
    ensures
        r == duration_nanos(*d) / 1_000_000,
;

/// Relies on `Duration::as_secs`: the whole seconds it holds.
pub assume_specification[ core::time::Duration::as_secs ](d: &Duration) -> (r: u64)
    ensures
        r == duration_nanos(*d) / 1_000_000_000,
;

/// Relies on `Duration::saturating_sub`: the difference, or zero where `rhs`
/// is the longer one.
pub assume_specification[ core::time::Duration::saturating_sub ](
    d: Duration,
    rhs: Duration,
) -> (r: Duration)
    ensures
        duration_nanos(r) == if duration_nanos(d) >= duration_nanos(rhs) {
            duration_nanos(d) - duration_nanos(rhs)
        } else {
            0
        },
;

/// Relies on `Duration::is_zero`: whether it holds no time at all.
pub assume_specification[ core::time::Duration::is_zero ](d: &Duration) -> (r: bool)
    ensures
        r == (duration_nanos(*d) == 0),
;

/// Relies on `Duration`'s `Clone`: it is `Copy`, so a clone is the same value.
pub assume_specification[ <core::time::Duration as Clone>::clone ](d: &Duration) -> (r: Duration)
    ensures
        r == *d,
;

/// The shortest delay the probing loops ever sleep, in milliseconds.
pub const MIN_DELAY_MS: u64 = 100;

/// Time utilities.
pub struct TimeUtils;

impl TimeUtils {
    pub fn duration_from_millis(ms: u64) -> (r: Duration)
        ensures
            duration_millis(r) == ms,
    {
        Duration::from_millis(ms)
    }

    pub fn duration_from_secs(secs: u64) -> (r: Duration)
        ensures
            duration_millis(r) == secs * 1000,
    {
        Duration::from_secs(secs)
    }

    /// The duration, raised to the 100 ms floor.
    pub fn min_duration(duration: Duration) -> (r: Duration)
        ensures
            duration_millis(duration) < MIN_DELAY_MS ==> duration_millis(r) == MIN_DELAY_MS,
            duration_millis(duration) >= MIN_DELAY_MS ==> r == duration,
    {
        if duration.as_millis() < MIN_DELAY_MS as u128 {
            Duration::from_millis(MIN_DELAY_MS)
        } else {
            duration
        }
    }
}

} // verus!
