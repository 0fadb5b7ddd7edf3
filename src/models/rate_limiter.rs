//! Time-based rate limiting.
use std::time::{Duration, Instant};
use vstd::prelude::*;
use crate::time_utils::duration_nanos;

verus! {

#[verifier::external_type_specification]
#[verifier::external_body]
pub struct ExInstant(Instant);

/// Relies on `Instant::now`: a reading of the monotonic clock. Nothing is
/// known of the value.
pub assume_specification[ Instant::now ]() -> Instant;

/// Relies on `Instant::duration_since`: the time elapsed from `earlier` to
/// `now`, zero where `earlier` is the later one. Nothing more is stated.
pub assume_specification[ Instant::duration_since ](now: &Instant, earlier: Instant) -> Duration;

/// Whether `elapsed` covers the whole of `min_interval`.
pub fn interval_passed(elapsed: Duration, min_interval: Duration) -> (r: bool)
    ensures
        r == (duration_nanos(elapsed) >= duration_nanos(min_interval)),
{
    min_interval.saturating_sub(elapsed).is_zero()
}

/// Allows an action at most once per interval.
#[derive(Debug)]
pub struct RateLimiter {
    last_time: Option<Instant>,
    min_interval: Duration,
}

impl RateLimiter {
    pub closed spec fn spec_min_interval(&self) -> Duration {
        self.min_interval
    }

    /// Whether an action was allowed already.
    pub closed spec fn spec_acted(&self) -> bool {
        self.last_time is Some
    }

    /// A limiter that allows the first action at once.
    pub fn new(min_interval: Duration) -> (r: Self)
        ensures
            r.spec_min_interval() == min_interval,
            !r.spec_acted(),
    {
        RateLimiter { last_time: None, min_interval }
    }

    /// Whether an action is allowed now; an allowed action restarts the
    /// interval. The first call is always allowed.
    pub fn is_allowed(&mut self) -> (r: bool)
        ensures
            !old(self).spec_acted() ==> r,
            final(self).spec_min_interval() == old(self).spec_min_interval(),
            final(self).spec_acted(),
            duration_nanos(old(self).spec_min_interval()) == 0 ==> r,
    {
        let now = Instant::now();
        match self.last_time {
            None => {
                self.last_time = Some(now);
                true
            },
            Some(last) => {
                let elapsed = now.duration_since(last);
                if interval_passed(elapsed, self.min_interval) {
                    self.last_time = Some(now);
                    true
                } else {
                    false
                }
            },
        }
    }

    /// Time left until the next action is allowed: zero once the interval
    /// has passed, and never more than the interval.
    pub fn time_until_allowed(&self) -> (r: Duration)
        ensures
            !self.spec_acted() ==> duration_nanos(r) == 0,
            duration_nanos(r) <= duration_nanos(self.spec_min_interval()),
    {
        match self.last_time {
            None => Duration::from_millis(0),
            Some(last) => {
                let elapsed = Instant::now().duration_since(last);
                self.min_interval.saturating_sub(elapsed)
            },
        }
    }
}

} // verus!
