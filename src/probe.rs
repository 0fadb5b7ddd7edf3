//! Probe-loop timing: configuration and the jittered delay between probes.
use rand::Rng;
use std::time::Duration;
use vstd::prelude::*;
use crate::time_utils::{duration_millis, MIN_DELAY_MS};

verus! {

/// Configuration for probe timing and concurrency.
#[derive(Debug, Clone)]
pub struct ProbeConfig {
    pub probe_interval_ms: u64,
    pub concurrency_limit: usize,
    pub rtt_timeout_ms: u64,
    pub jitter_percent: u8,
}

impl Default for ProbeConfig {
    fn default() -> (r: Self)
        ensures
            r.probe_interval_ms == 5000,
            r.concurrency_limit == 500,
            r.rtt_timeout_ms == 2000,
            r.jitter_percent == 10,
    {
        ProbeConfig {
            probe_interval_ms: 5000,
            concurrency_limit: 500,
            rtt_timeout_ms: 2000,
            jitter_percent: 10,
        }
    }
}

/// Half-width of the jitter window around `base_ms`.
pub open spec fn jitter_range(base_ms: nat, jitter_percent: nat) -> nat {
    (base_ms * jitter_percent) / 100
}

/// The delay before the next probe, given a draw `draw` from `0..=2 * range`:
/// `base - range + draw`, floored at the minimum delay.
pub open spec fn jittered_sleep(base_ms: nat, jitter_percent: nat, draw: nat) -> nat {
    let v = base_ms + draw - jitter_range(base_ms, jitter_percent);
    if v < MIN_DELAY_MS {
        MIN_DELAY_MS as nat
    } else {
        v as nat
    }
}

/// Relies on `rand::Rng::gen_range` over the thread-local generator: a value
/// drawn from `0..=hi`, a range that is never empty.
#[verifier::external_body]
fn draw_up_to(hi: u64) -> (r: u64)
    ensures
        r <= hi,
{
    rand::thread_rng().gen_range(0..=hi)
}

/// The delay before the next probe for the drawn offset `draw`.
pub fn jittered_sleep_ms(base_ms: u64, jitter_percent: u8, draw: u64) -> (r: u64)
    requires
        base_ms * jitter_percent <= u64::MAX,
        base_ms + jitter_range(base_ms as nat, jitter_percent as nat) <= u64::MAX,
        draw <= 2 * jitter_range(base_ms as nat, jitter_percent as nat),
    ensures
        r == jittered_sleep(base_ms as nat, jitter_percent as nat, draw as nat),
{
    let range: u64 = (base_ms * jitter_percent as u64) / 100;
    let total: u128 = base_ms as u128 + draw as u128;
    if total < range as u128 + MIN_DELAY_MS as u128 {
        MIN_DELAY_MS
    } else {
        (total - range as u128) as u64
    }
}

impl ProbeConfig {
    /// The jittered delay before the next probe: `interval ± interval *
    /// jitter_percent / 100`, uniformly drawn, never under 100 ms.
    pub fn calculate_sleep_duration(&self) -> (r: Duration)
        requires
            self.probe_interval_ms * self.jitter_percent <= u64::MAX,
            self.probe_interval_ms + jitter_range(
                self.probe_interval_ms as nat,
                self.jitter_percent as nat,
            ) <= u64::MAX,
        ensures
            exists|draw: nat|
                draw <= 2 * jitter_range(self.probe_interval_ms as nat, self.jitter_percent as nat)
                    && duration_millis(r) == jittered_sleep(
                    self.probe_interval_ms as nat,
                    self.jitter_percent as nat,
                    draw,
                ),
    {
        let base_ms = self.probe_interval_ms;
        let range: u64 = (base_ms * self.jitter_percent as u64) / 100;
        let draw = draw_up_to(range * 2);
        let ms = jittered_sleep_ms(base_ms, self.jitter_percent, draw);
        let r = Duration::from_millis(ms);
        assert(duration_millis(r) == jittered_sleep(
            self.probe_interval_ms as nat,
            self.jitter_percent as nat,
            draw as nat,
        ));
        r
    }
}

/// Every jittered delay lies within `range` of the base interval, except that
/// it is never under the 100 ms floor: for an interval of 1000 ms and 10 %
/// jitter, every delay lies in 900..=1100 ms.
pub proof fn lemma_sleep_within_jitter_window(base_ms: nat, jitter_percent: nat, draw: nat)
    requires
        draw <= 2 * jitter_range(base_ms, jitter_percent),
    ensures
        jittered_sleep(base_ms, jitter_percent, draw) >= MIN_DELAY_MS,
        jittered_sleep(base_ms, jitter_percent, draw) <= if base_ms + jitter_range(
            base_ms,
            jitter_percent,
        ) < MIN_DELAY_MS {
            MIN_DELAY_MS as nat
        } else {
            base_ms + jitter_range(base_ms, jitter_percent)
        },
        jittered_sleep(base_ms, jitter_percent, draw) >= base_ms - jitter_range(
            base_ms,
            jitter_percent,
        ),
        base_ms == 1000 && jitter_percent == 10 ==> 900 <= jittered_sleep(
            base_ms,
            jitter_percent,
            draw,
        ) <= 1100,
{
    if base_ms == 1000 && jitter_percent == 10 {
        assert(base_ms * jitter_percent == 10000) by (nonlinear_arith)
            requires
                base_ms == 1000,
                jitter_percent == 10,
        ;
        assert(jitter_range(base_ms, jitter_percent) == 100);
    }
}

} // verus!
