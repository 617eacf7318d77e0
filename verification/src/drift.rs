//! The self-correction property of the schedule.
//!
//! Each iteration spends some overhead (dispatching the callback, running
//! the loop itself) before it measures the elapsed time and sleeps the
//! rest of the interval. Because the anchor is reset to the actual wake
//! time and the next sleep is computed from it, the overhead of one
//! iteration is absorbed by that iteration's own sleep: it does not push
//! every later tick back. The lemmas here state that over a whole run.

use vstd::prelude::*;

verus! {

/// The gap between two consecutive wakes of the loop when the iteration
/// between them spends `overhead` before its sleep check: the full
/// interval while the overhead fits inside it, the bare overhead once it
/// does not (the loop then skips sleeping but never fires early twice to
/// catch up).
pub open spec fn wake_gap(interval: nat, overhead: nat) -> nat {
    if overhead < interval {
        interval
    } else {
        overhead
    }
}

/// The wake time of the loop after its first `overheads.len()` iterations,
/// starting from an anchor at time zero, where `overheads[k]` is the time
/// iteration `k` spends before its sleep check.
pub open spec fn anchor_after(interval: nat, overheads: Seq<nat>) -> nat
    decreases overheads.len(),
{
    if overheads.len() == 0 {
        0
    } else {
        anchor_after(interval, overheads.drop_last()) + wake_gap(interval, overheads.last())
    }
}

/// Self-correction: as long as every iteration's overhead fits within the
/// interval, the `n`-th wake lands exactly at `n * interval` — consecutive
/// ticks are spaced by exactly one interval, and overhead never accumulates
/// into drift, however many ticks have passed.
pub proof fn lemma_self_correcting(interval: nat, overheads: Seq<nat>)
    requires
        forall|k: int| 0 <= k < overheads.len() ==> overheads[k] <= interval,
    ensures
        anchor_after(interval, overheads) == overheads.len() * interval,
    decreases overheads.len(),
{
    if overheads.len() > 0 {
        assert(forall|k: int|
            0 <= k < overheads.drop_last().len() ==> overheads.drop_last()[k] <= interval);
        lemma_self_correcting(interval, overheads.drop_last());
        assert(wake_gap(interval, overheads.last()) == interval);
        assert((overheads.len() - 1) * interval + interval == overheads.len() * interval)
            by (nonlinear_arith);
    }
}

/// A run whose every iteration spends the same overhead wakes, after `n`
/// iterations, exactly `n` gaps after the start: the evenly spaced
/// schedule that the idealized run in `sim` dispatches on.
pub proof fn lemma_constant_overhead(interval: nat, overhead: nat, n: nat)
    ensures
        anchor_after(interval, Seq::new(n, |k: int| overhead)) == n * wake_gap(
            interval,
            overhead,
        ),
    decreases n,
{
    let s = Seq::new(n, |k: int| overhead);
    if n > 0 {
        lemma_constant_overhead(interval, overhead, (n - 1) as nat);
        assert(s.drop_last() =~= Seq::new((n - 1) as nat, |k: int| overhead));
        assert(s.last() == overhead);
        assert(anchor_after(interval, s) == anchor_after(interval, s.drop_last()) + wake_gap(
            interval,
            overhead,
        ));
        assert((n - 1) * wake_gap(interval, overhead) + wake_gap(interval, overhead) == n
            * wake_gap(interval, overhead)) by (nonlinear_arith);
    } else {
        assert(s.len() == 0);
        assert(anchor_after(interval, s) == 0);
        assert(n * wake_gap(interval, overhead) == 0);
    }
}

/// Ticks never fire early: whatever the overheads, the `n`-th wake comes
/// no sooner than `n * interval` after the start.
pub proof fn lemma_never_early(interval: nat, overheads: Seq<nat>)
    ensures
        anchor_after(interval, overheads) >= overheads.len() * interval,
    decreases overheads.len(),
{
    if overheads.len() > 0 {
        lemma_never_early(interval, overheads.drop_last());
        assert(wake_gap(interval, overheads.last()) >= interval);
        assert((overheads.len() - 1) * interval + interval == overheads.len() * interval)
            by (nonlinear_arith);
    }
}

} // verus!
