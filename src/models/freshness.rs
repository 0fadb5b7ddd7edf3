//! The non-numeric part of a per-endpoint aggregator state: which cached
//! aggregates are valid, and which jitter update a new record calls for.
use vstd::prelude::*;

verus! {

/// Validity of the cached short- and long-window aggregates. A cached value
/// may be read only while its window is not dirty.
#[derive(Debug, Clone, Copy, PartialEq, Eq, Structural)]
pub struct Freshness {
    pub dirty_short: bool,
    pub dirty_long: bool,
}

/// Which window's aggregates must be recomputed now.
#[derive(Debug, Clone, Copy, PartialEq, Eq, Structural)]
pub enum Recompute {
    Nothing,
    Short,
    Long,
}

impl Freshness {
    /// A fresh state has nothing cached: both windows are dirty.
    pub fn new() -> (r: Self)
        ensures
            r.dirty_short && r.dirty_long,
    {
        Freshness { dirty_short: true, dirty_long: true }
    }

    /// A new record invalidates both windows; the short window's aggregates
    /// are to be recomputed at once.
    pub fn on_record(&mut self) -> (r: Recompute)
        ensures
            final(self).dirty_short && final(self).dirty_long,
            r == Recompute::Short,
    {
        self.dirty_short = true;
        self.dirty_long = true;
        Recompute::Short
    }

    /// The short window's aggregates were recomputed.
    pub fn short_recomputed(&mut self)
        ensures
            !final(self).dirty_short,
            final(self).dirty_long == old(self).dirty_long,
    {
        self.dirty_short = false;
    }

    /// The periodic timer fired: the long window is recomputed only when it
    /// is dirty.
    pub fn on_long_timer(&mut self) -> (r: Recompute)
        ensures
            r == (if old(self).dirty_long {
                Recompute::Long
            } else {
                Recompute::Nothing
            }),
            *final(self) == *old(self),
    {
        if self.dirty_long {
            Recompute::Long
        } else {
            Recompute::Nothing
        }
    }

    /// The long window's aggregates were recomputed.
    pub fn long_recomputed(&mut self)
        ensures
            !final(self).dirty_long,
            final(self).dirty_short == old(self).dirty_short,
    {
        self.dirty_long = false;
    }
}

/// How a new record moves the EWMA jitter.
#[derive(Debug, Clone, Copy, PartialEq, Eq, Structural)]
pub enum JitterUpdate {
    /// Both the previous and the new record have an RTT: smooth toward their
    /// absolute difference at the full rate.
    Delta,
    /// The new record has no RTT: smooth toward the fixed penalty at half the
    /// rate.
    Penalty,
    /// The first RTT seen: nothing to compare it with, jitter stays.
    Unchanged,
}

/// The jitter update for a record with or without an RTT, after a previous
/// RTT was or was not seen.
pub open spec fn spec_jitter_update(had_rtt: bool, has_rtt: bool) -> JitterUpdate {
    if !has_rtt {
        JitterUpdate::Penalty
    } else if had_rtt {
        JitterUpdate::Delta
    } else {
        JitterUpdate::Unchanged
    }
}

pub fn jitter_update(had_rtt: bool, has_rtt: bool) -> (r: JitterUpdate)
    ensures
        r == spec_jitter_update(had_rtt, has_rtt),
{
    if !has_rtt {
        JitterUpdate::Penalty
    } else if had_rtt {
        JitterUpdate::Delta
    } else {
        JitterUpdate::Unchanged
    }
}

/// The first record with an RTT, after none was seen, calls for no jitter
/// change: there is nothing to differ from. (The jitter value itself is kept
/// as a float outside this library.)
pub proof fn lemma_first_rtt_keeps_jitter()
    ensures
        spec_jitter_update(false, true) == JitterUpdate::Unchanged,
{
}

} // verus!
