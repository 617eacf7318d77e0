// The stop flag's lifecycle, the per-iteration decisions, and idealized
// runs of the whole loop: each test drives the library's public API on
// concrete values.

use spawn_interval::flag::StopFlag;
use spawn_interval::scheduler::{RunState, Scheduler};
use spawn_interval::sim::simulate_run;

#[test]
fn flag_starts_lowered() {
    let f = StopFlag::new();
    assert!(!f.is_set());
}

#[test]
fn cancel_raises_flag() {
    let mut f = StopFlag::new();
    f.cancel();
    assert!(f.is_set());
}

#[test]
fn cancel_is_idempotent() {
    let mut f = StopFlag::new();
    f.cancel();
    f.cancel();
    f.cancel();
    assert!(f.is_set());
}

#[test]
fn new_scheduler_anchors_at_creation() {
    let s = Scheduler::new(500, 42);
    assert_eq!(s.interval_ns, 500);
    assert_eq!(s.anchor_ns, 42);
    assert!(s.state == RunState::Running);
}

#[test]
fn sleep_full_interval_at_anchor() {
    let s = Scheduler::new(500, 0);
    assert_eq!(s.sleep_needed(0), Some(500));
}

#[test]
fn sleep_remainder_partway() {
    let s = Scheduler::new(500, 100);
    assert_eq!(s.sleep_needed(300), Some(300));
}

#[test]
fn sleep_skipped_when_interval_elapsed() {
    let s = Scheduler::new(500, 0);
    assert_eq!(s.sleep_needed(500), None);
    assert_eq!(s.sleep_needed(700), None);
}

#[test]
fn zero_interval_never_sleeps() {
    let s = Scheduler::new(0, 0);
    assert_eq!(s.sleep_needed(0), None);
    assert_eq!(s.sleep_needed(1), None);
    assert_eq!(s.sleep_needed(1_000_000), None);
}

#[test]
fn step_dispatches_and_reanchors() {
    let mut s = Scheduler::new(500, 0);
    let dispatch = s.step(700, false);
    assert!(dispatch);
    assert_eq!(s.anchor_ns, 700);
    assert!(s.state == RunState::Running);
}

#[test]
fn step_stops_on_observed_flag() {
    let mut s = Scheduler::new(500, 0);
    let dispatch = s.step(700, true);
    assert!(!dispatch);
    assert_eq!(s.anchor_ns, 700);
    assert!(s.state == RunState::Stopped);
}

#[test]
fn ticks_spaced_exactly_one_interval() {
    // Overhead well under the interval: every gap is exactly the interval
    // and the tenth tick lands exactly on 10 * interval — no drift.
    let ticks = simulate_run(10, 2, 101);
    assert_eq!(ticks, vec![10, 20, 30, 40, 50, 60, 70, 80, 90, 100]);
    for pair in ticks.windows(2) {
        assert_eq!(pair[1] - pair[0], 10);
    }
}

#[test]
fn late_iterations_do_not_queue_catchup() {
    // Overhead beyond the interval: each tick is late, but each wake fires
    // exactly once — no burst of catch-up dispatches.
    let ticks = simulate_run(10, 25, 200);
    assert_eq!(ticks, vec![25, 50, 75, 100, 125, 150, 175]);
}

#[test]
fn no_dispatch_at_or_after_cancel() {
    let ticks = simulate_run(100, 1, 350);
    assert_eq!(ticks, vec![100, 200, 300]);
    for t in &ticks {
        assert!(*t < 350);
    }
}

#[test]
fn half_second_interval_cancelled_at_1600ms() {
    // 500 ms ticks, cancelled 1.6 s in: dispatches at 0.5 s, 1.0 s and
    // 1.5 s have fired; the wake at 2.0 s observes the request and exits.
    let ticks = simulate_run(500_000_000, 1_000, 1_600_000_000);
    assert_eq!(ticks, vec![500_000_000, 1_000_000_000, 1_500_000_000]);
}

#[test]
fn slow_callback_overlaps_dispatches() {
    // A callback that runs for twice the interval is still running when
    // the next tick fires: dispatches are not serialized or skipped.
    let interval: u64 = 100;
    let callback_runtime: u64 = 200;
    let ticks = simulate_run(interval, 1, 450);
    assert_eq!(ticks, vec![100, 200, 300, 400]);
    for pair in ticks.windows(2) {
        // the next dispatch begins before the previous callback finishes
        assert!(pair[1] < pair[0] + callback_runtime);
    }
}

#[test]
fn zero_interval_tight_loop() {
    // Interval zero: ticks come back to back, bounded only by the loop's
    // own overhead — six dispatches inside 20 ns at 3 ns overhead.
    let ticks = simulate_run(0, 3, 20);
    assert_eq!(ticks, vec![3, 6, 9, 12, 15, 18]);
}

#[test]
fn cancel_before_first_tick_no_dispatch() {
    let ticks = simulate_run(500, 1, 200);
    assert!(ticks.is_empty());
    let none = simulate_run(500, 1, 0);
    assert!(none.is_empty());
}
