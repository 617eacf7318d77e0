//! An idealized run of the whole background loop.
//!
//! Time here is an exact `u64` nanosecond counter: sleeps wake precisely
//! on time and every iteration spends the same `overhead_ns` between its
//! wake and its sleep check. Under that clock the loop's behaviour is a
//! pure function of the interval, the overhead and the moment cancellation
//! is requested, and its contract pins down every dispatch time: ticks are
//! spaced by exactly `wake_gap(interval, overhead)`, every dispatch
//! happens strictly before the cancellation request, and the first wake at
//! or after the request exits without dispatching.

use vstd::prelude::*;

verus! {

use crate::drift::wake_gap;
use crate::scheduler::Scheduler;

/// The wake time of the coming iteration: the loop reaches its sleep
/// check `overhead_ns` after the anchor and then sleeps whatever the
/// scheduler asks, so it wakes one `wake_gap` after the anchor.
fn next_wake(s: &Scheduler, overhead_ns: u64) -> (w: u64)
    requires
        s.anchor_ns + overhead_ns <= u64::MAX,
        s.anchor_ns + s.interval_ns <= u64::MAX,
    ensures
        w == s.anchor_ns + wake_gap(s.interval_ns as nat, overhead_ns as nat),
{
    let now: u64 = s.anchor_ns + overhead_ns;
    match s.sleep_needed(now) {
        Some(rest) => now + rest,
        None => now,
    }
}

/// Run the loop on the exact clock until it observes the cancellation
/// request, and return the dispatch times. The scheduler is created at
/// time zero; cancellation is requested at `cancel_at_ns`, and the loop
/// reads the flag once per iteration, right after waking. The contract
/// gives the run in full: the `k`-th dispatch happens at
/// `(k + 1) * wake_gap(interval, overhead)`, every dispatch happens
/// strictly before the request, and the wake after the last dispatch —
/// the first at or after the request — dispatches nothing and stops the
/// loop.
pub fn simulate_run(interval_ns: u64, overhead_ns: u64, cancel_at_ns: u64) -> (ticks: Vec<u64>)
    requires
        1 <= overhead_ns,
        interval_ns <= u64::MAX - cancel_at_ns,
        overhead_ns <= u64::MAX - cancel_at_ns,
    ensures
        forall|k: int|
            0 <= k < ticks@.len() ==> ticks@[k] == (k + 1) * wake_gap(
                interval_ns as nat,
                overhead_ns as nat,
            ),
        forall|k: int| 0 <= k < ticks@.len() ==> ticks@[k] < cancel_at_ns,
        ticks@.len() == 0 || ticks@.len() * wake_gap(interval_ns as nat, overhead_ns as nat)
            < cancel_at_ns,
        (ticks@.len() + 1) * wake_gap(interval_ns as nat, overhead_ns as nat) >= cancel_at_ns,
{
    let mut sched = Scheduler::new(interval_ns, 0);
    let mut ticks: Vec<u64> = Vec::new();
    let mut wake: u64 = next_wake(&sched, overhead_ns);
    proof {
        assert(ticks@.len() == 0);
        assert(0 * wake_gap(interval_ns as nat, overhead_ns as nat) == 0);
    }
    while wake < cancel_at_ns
        invariant
            1 <= overhead_ns,
            interval_ns <= u64::MAX - cancel_at_ns,
            overhead_ns <= u64::MAX - cancel_at_ns,
            sched.state is Running,
            sched.interval_ns == interval_ns,
            sched.anchor_ns == ticks@.len() * wake_gap(interval_ns as nat, overhead_ns as nat),
            wake == sched.anchor_ns + wake_gap(interval_ns as nat, overhead_ns as nat),
            forall|k: int|
                0 <= k < ticks@.len() ==> ticks@[k] == (k + 1) * wake_gap(
                    interval_ns as nat,
                    overhead_ns as nat,
                ),
            forall|k: int| 0 <= k < ticks@.len() ==> ticks@[k] < cancel_at_ns,
        decreases cancel_at_ns - sched.anchor_ns,
    {
        let stop_observed: bool = cancel_at_ns <= wake;
        let dispatch: bool = sched.step(wake, stop_observed);
        assert(dispatch);  // the loop woke before the request: this tick still fires
        proof {
            assert((ticks@.len() + 1) * wake_gap(interval_ns as nat, overhead_ns as nat) == ticks@.len()
                * wake_gap(interval_ns as nat, overhead_ns as nat) + wake_gap(
                interval_ns as nat,
                overhead_ns as nat,
            )) by (nonlinear_arith);
        }
        ticks.push(wake);
        wake = next_wake(&sched, overhead_ns);
    }
    let stop_observed: bool = cancel_at_ns <= wake;
    let dispatch: bool = sched.step(wake, stop_observed);
    assert(!dispatch);  // the request is observed at this wake: nothing more fires
    assert(sched.state is Stopped);
    proof {
        if ticks@.len() > 0 {
            assert(ticks@[ticks@.len() - 1] < cancel_at_ns);
            assert(ticks@[ticks@.len() - 1] == (ticks@.len() - 1 + 1) * wake_gap(
                interval_ns as nat,
                overhead_ns as nat,
            ));
        }
        assert((ticks@.len() + 1) * wake_gap(interval_ns as nat, overhead_ns as nat) == ticks@.len()
            * wake_gap(interval_ns as nat, overhead_ns as nat) + wake_gap(
            interval_ns as nat,
            overhead_ns as nat,
        )) by (nonlinear_arith);
    }
    ticks
}

} // verus!
