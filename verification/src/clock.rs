//! The periodic clock model.
//!
//! A periodic timer fires at multiples of its period, anchored to the
//! schedule: the deadline for tick `i + 1` is the deadline for tick `i` plus
//! one period, never "now plus one period". Handler latency therefore cannot
//! drift the schedule.

use vstd::prelude::*;

verus! {

/// The scheduled firing time of tick `i` (zero-based) of a timer with the
/// given period, counted from the timer's start.
pub open spec fn tick_time(period: nat, i: nat) -> nat {
    period * (i + 1)
}

/// Consecutive ticks are separated by exactly one period: the schedule is
/// anchored to itself, so no drift accumulates.
pub proof fn lemma_tick_spacing(period: nat, i: nat)
    ensures
        tick_time(period, i + 1) == tick_time(period, i) + period,
{
    assert(period * (i + 2) == period * (i + 1) + period) by (nonlinear_arith);
}

/// Over a run of duration at least `k` periods, at least `k` ticks have their
/// scheduled time inside the run.
pub proof fn lemma_ticks_within_duration(period: nat, k: nat, duration: nat)
    requires
        k * period <= duration,
        k > 0,
    ensures
        tick_time(period, (k - 1) as nat) <= duration,
{
    assert(period * k == k * period) by (nonlinear_arith);
}

/// The next deadline, anchored to the previous scheduled deadline.
pub fn next_deadline(scheduled: u64, period: u64) -> (d: u64)
    requires
        scheduled + period <= u64::MAX,
    ensures
        d == scheduled + period,
{
    scheduled + period
}

/// Ticks of one timer are strictly ordered: a later tick never fires at or
/// before an earlier one (the per-producer FIFO order is real time order).
pub proof fn lemma_tick_order(period: nat, i: nat, j: nat)
    requires
        period > 0,
        i < j,
    ensures
        tick_time(period, i) < tick_time(period, j),
{
    assert(period * (i + 1) < period * (j + 1)) by (nonlinear_arith)
        requires
            period > 0,
            i < j,
    ;
}

} // verus!
