//! The drift-corrected cadence of the sampling loop: each tick starts at a
//! fixed deadline, and the sleep after a tick is whatever remains until
//! that deadline, so processing time never shifts the schedule.

use vstd::prelude::*;

verus! {

/// The loop's schedule: a fixed period and the deadline of the next tick,
/// both in milliseconds.
#[derive(Debug, Clone, Copy, PartialEq, Eq, Structural)]
pub struct Cadence {
    /// The sampling period.
    pub period_ms: u64,
    /// When the next tick is due.
    pub deadline_ms: u64,
}

/// The deadline of the `n`-th tick after a start: `start + (n+1)*period`,
/// independent of how long any tick's processing took.
pub open spec fn nth_deadline(start_ms: u64, period_ms: u64, n: nat) -> int
    decreases n,
{
    if n == 0 {
        start_ms + period_ms
    } else {
        nth_deadline(start_ms, period_ms, (n - 1) as nat) + period_ms
    }
}

/// The schedule is drift-free: the `n`-th deadline is exactly
/// `start + (n+1)*period`, so the error never accumulates.
pub proof fn lemma_no_drift(start_ms: u64, period_ms: u64, n: nat)
    ensures
        nth_deadline(start_ms, period_ms, n) == start_ms + period_ms * (n + 1),
    decreases n,
{
    if n == 0 {
        assert(period_ms * 1nat == period_ms) by (nonlinear_arith);
    } else {
        lemma_no_drift(start_ms, period_ms, (n - 1) as nat);
        assert(period_ms * n + period_ms == period_ms * (n + 1)) by (nonlinear_arith);
    }
}

impl Cadence {
    /// Start the schedule: the first tick is due one period after `now_ms`.
    pub fn start(now_ms: u64, period_ms: u64) -> (c: Cadence)
        requires
            now_ms + period_ms <= u64::MAX,
        ensures
            c.period_ms == period_ms,
            c.deadline_ms == now_ms + period_ms,
    {
        Cadence { period_ms, deadline_ms: now_ms + period_ms }
    }

    /// End one tick at wall-clock `now_ms`: how long to sleep until the
    /// deadline (zero when the tick overran it), advancing the deadline by
    /// exactly one period — never by "now plus a period", which would let
    /// processing time drift the schedule.
    pub fn after_tick(&mut self, now_ms: u64) -> (sleep_ms: u64)
        requires
            old(self).deadline_ms + old(self).period_ms <= u64::MAX,
        ensures
            sleep_ms == if now_ms >= old(self).deadline_ms {
                0u64
            } else {
                (old(self).deadline_ms - now_ms) as u64
            },
            final(self).deadline_ms == old(self).deadline_ms + old(self).period_ms,
            final(self).period_ms == old(self).period_ms,
    {
        let sleep_ms = if now_ms >= self.deadline_ms {
            0
        } else {
            self.deadline_ms - now_ms
        };
        self.deadline_ms = self.deadline_ms + self.period_ms;
        sleep_ms
    }
}

} // verus!
