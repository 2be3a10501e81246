use glimpse::gesture::{Gesture, GestureEvent, GestureOutcome};
const MS: u64 = 1_000_000;

fn at(base: u64, ms: u64) -> u64 {
    base + ms * MS
}

#[test]
fn single_button_does_not_start_hold() {
    let mut g = Gesture::default();
    assert_eq!(g.process(GestureEvent::LeftDown), GestureOutcome::Idle);
    assert_eq!(
        g.process(GestureEvent::Tick { now: g.now_ns() }),
        GestureOutcome::Idle
    );
}

#[test]
fn both_down_starts_hold() {
    let mut g = Gesture::default();
    g.process(GestureEvent::LeftDown);
    let r = g.process(GestureEvent::RightDown);
    assert!(matches!(r, GestureOutcome::HoldStarted { .. }));
}

#[test]
fn release_early_cancels() {
    let mut g = Gesture::default();
    g.process(GestureEvent::LeftDown);
    g.process(GestureEvent::RightDown);
    assert_eq!(
        g.process(GestureEvent::LeftUp),
        GestureOutcome::HoldCancelled
    );
}

#[test]
fn drift_too_far_cancels() {
    let mut g = Gesture::new(250 * MS, 5);
    g.process(GestureEvent::LeftDown);
    g.process(GestureEvent::RightDown);
    assert_eq!(
        g.process(GestureEvent::Move { dx: 4, dy: 3 }),
        GestureOutcome::HoldCancelled
    );
}

#[test]
fn full_hold_fires() {
    let mut g = Gesture::new(250 * MS, 5);
    let base = g.now_ns();
    g.process(GestureEvent::LeftDown);
    g.process(GestureEvent::RightDown);
    // Tick before threshold: still idle.
    assert_eq!(
        g.process(GestureEvent::Tick { now: at(base, 100) }),
        GestureOutcome::Idle
    );
    // Tick after threshold: fire.
    assert_eq!(
        g.process(GestureEvent::Tick {
            now: at(base, 1_000)
        }),
        GestureOutcome::Fire
    );
}

#[test]
fn hold_starts_at_the_press_time() {
    let mut g = Gesture::new(250 * MS, 5);
    assert_eq!(g.process_at(GestureEvent::RightDown, 10), GestureOutcome::Idle);
    assert_eq!(
        g.process_at(GestureEvent::LeftDown, 40),
        GestureOutcome::HoldStarted { began_at: 40 }
    );
}

#[test]
fn fires_exactly_at_threshold_and_only_once() {
    let mut g = Gesture::new(250 * MS, 5);
    g.process_at(GestureEvent::LeftDown, 1_000 * MS);
    g.process_at(GestureEvent::RightDown, 1_000 * MS + 900_000);
    // The threshold is counted from the second press to the nanosecond.
    assert_eq!(
        g.process_at(GestureEvent::Tick { now: 1_250 * MS + 899_999 }, 0),
        GestureOutcome::Idle
    );
    assert_eq!(
        g.process_at(GestureEvent::Tick { now: 1_250 * MS + 900_000 }, 0),
        GestureOutcome::Fire
    );
    assert_eq!(g.process_at(GestureEvent::Tick { now: 5_000 * MS }, 0), GestureOutcome::Idle);
    // Releasing after the fire is quiet.
    assert_eq!(g.process_at(GestureEvent::RightUp, 0), GestureOutcome::Idle);
    assert_eq!(g.process_at(GestureEvent::LeftUp, 0), GestureOutcome::Idle);
}

#[test]
fn drift_within_limit_accumulates() {
    let mut g = Gesture::new(250 * MS, 5);
    g.process_at(GestureEvent::LeftDown, 0);
    g.process_at(GestureEvent::RightDown, 0);
    assert_eq!(g.process_at(GestureEvent::Move { dx: -2, dy: 1 }, 0), GestureOutcome::Idle);
    assert_eq!(g.process_at(GestureEvent::Move { dx: 0, dy: -2 }, 0), GestureOutcome::Idle);
    // 3 + 2 = 5 is still within the limit; one more pixel exceeds it.
    assert_eq!(
        g.process_at(GestureEvent::Move { dx: 1, dy: 0 }, 0),
        GestureOutcome::HoldCancelled
    );
    // The cancelled hold never fires.
    assert_eq!(g.process_at(GestureEvent::Tick { now: 10_000 * MS }, 0), GestureOutcome::Idle);
}

#[test]
fn moves_and_ticks_at_rest_do_nothing() {
    let mut g = Gesture::default();
    assert_eq!(g.process_at(GestureEvent::Move { dx: 100, dy: 100 }, 0), GestureOutcome::Idle);
    assert_eq!(g.process_at(GestureEvent::Tick { now: 99_999 * MS }, 0), GestureOutcome::Idle);
    assert_eq!(g.process_at(GestureEvent::LeftUp, 0), GestureOutcome::Idle);
}

#[test]
fn tick_before_start_counts_as_no_time() {
    let mut g = Gesture::new(0, 5);
    g.process_at(GestureEvent::LeftDown, 500 * MS);
    g.process_at(GestureEvent::RightDown, 500 * MS);
    // With a zero threshold even a tick stamped before the hold fires.
    assert_eq!(g.process_at(GestureEvent::Tick { now: 100 * MS }, 0), GestureOutcome::Fire);
}

#[test]
fn default_matches_documented_settings() {
    let g = Gesture::default();
    assert_eq!(g.hold_threshold, 250 * MS);
    assert_eq!(g.drift_limit_px, 5);
}
