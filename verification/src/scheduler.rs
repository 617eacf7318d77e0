//! The per-iteration decisions of the background loop.
//!
//! Each iteration of the loop measures the time elapsed since the tick
//! anchor, sleeps the remainder of the interval if any is left, re-anchors
//! at the moment it woke, and then either exits (if the stop flag was
//! observed raised) or dispatches the callback and goes round again.

use vstd::prelude::*;

verus! {

/// Phase of the background loop: it runs until it observes a stop request
/// at the top of an iteration, then stops for good.
#[derive(Clone, Copy, PartialEq, Eq, Structural, Debug)]
pub enum RunState {
    Running,
    Stopped,
}

/// How long the loop sleeps before the next tick, given the interval and
/// the time already spent since the tick anchor: the remainder of the
/// interval, or `None` (no sleep at all) once the interval has elapsed.
/// A late iteration never causes catch-up ticks: the deficit is dropped.
pub open spec fn spec_sleep(interval_ns: u64, elapsed_ns: u64) -> Option<u64> {
    if elapsed_ns < interval_ns {
        Some((interval_ns - elapsed_ns) as u64)
    } else {
        None
    }
}

/// A zero interval never asks for a sleep, whatever has elapsed: the loop
/// dispatches back to back, bounded only by its own overhead.
pub proof fn lemma_zero_interval_never_sleeps(elapsed_ns: u64)
    ensures
        spec_sleep(0, elapsed_ns) is None,
{
}

/// The control state of one scheduler: the interval fixed at creation, the
/// tick anchor (the moment the current wait window opened), and the loop
/// phase. Times are nanoseconds on a monotonic clock.
pub struct Scheduler {
    pub interval_ns: u64,
    pub anchor_ns: u64,
    pub state: RunState,
}

impl Scheduler {
    /// Create a scheduler: the anchor is set to creation time and the loop
    /// starts in the running phase. Creation cannot fail.
    pub fn new(interval_ns: u64, now_ns: u64) -> (s: Scheduler)
        ensures
            s.interval_ns == interval_ns,
            s.anchor_ns == now_ns,
            s.state is Running,
    {
        Scheduler { interval_ns, anchor_ns: now_ns, state: RunState::Running }
    }

    /// How long to sleep this iteration, measured at `now_ns`: the part of
    /// the interval not yet spent since the anchor, or `None` when the
    /// interval has already elapsed (the loop then skips sleeping — it does
    /// not queue missed ticks).
    pub fn sleep_needed(&self, now_ns: u64) -> (r: Option<u64>)
        requires
            self.anchor_ns <= now_ns,
        ensures
            r == spec_sleep(self.interval_ns, (now_ns - self.anchor_ns) as u64),
    {
        let elapsed: u64 = now_ns - self.anchor_ns;
        if elapsed < self.interval_ns {
            Some(self.interval_ns - elapsed)
        } else {
            None
        }
    }

    /// One wake of the loop at `wake_ns`: the anchor is reset to the wake
    /// time (not to the ideal tick time — this is what makes the schedule
    /// self-correcting), then the stop flag's observed value decides:
    /// raised means exit for good, otherwise the callback is dispatched.
    /// The result says whether to dispatch; a stopped scheduler never
    /// wakes again, so no dispatch begins after the stop is observed.
    pub fn step(&mut self, wake_ns: u64, stop_observed: bool) -> (dispatch: bool)
        requires
            old(self).state is Running,
            old(self).anchor_ns <= wake_ns,
        ensures
            final(self).interval_ns == old(self).interval_ns,
            final(self).anchor_ns == wake_ns,
            dispatch == !stop_observed,
            stop_observed ==> final(self).state is Stopped,
            !stop_observed ==> final(self).state is Running,
    {
        self.anchor_ns = wake_ns;
        if stop_observed {
            self.state = RunState::Stopped;
            false
        } else {
            true
        }
    }
}

} // verus!
