use glimpse::ring::{hide_ring, show, tick, RingAction, RingShared};

#[test]
fn hidden_ring_does_nothing_or_hides() {
    let r = RingShared::new();
    assert_eq!(tick(&r, false, 0), RingAction::Nothing);
    assert_eq!(tick(&r, true, 0), RingAction::HideWindow);
}

#[test]
fn shown_ring_draws_centred_with_progress() {
    let mut r = RingShared::new();
    show(&mut r, 500, 300, 1_000, 250);
    assert_eq!(
        tick(&r, false, 1_100),
        RingAction::Draw { elapsed_ms: 100, threshold_ms: 250, x: 476, y: 276, show_window: true }
    );
    assert_eq!(
        tick(&r, true, 900),
        RingAction::Draw { elapsed_ms: 0, threshold_ms: 250, x: 476, y: 276, show_window: false }
    );
}

#[test]
fn zero_threshold_becomes_one_millisecond() {
    let mut r = RingShared::new();
    show(&mut r, 0, 0, 0, 0);
    assert!(matches!(tick(&r, true, 5), RingAction::Draw { threshold_ms: 1, .. }));
}

#[test]
fn hiding_stops_drawing() {
    let mut r = RingShared::new();
    show(&mut r, 10, 10, 0, 250);
    hide_ring(&mut r);
    assert_eq!(tick(&r, true, 10), RingAction::HideWindow);
}

#[test]
fn hidden_ring_far_left_can_still_tick() {
    let mut r = RingShared::new();
    show(&mut r, i32::MIN, i32::MIN, 0, 250);
    hide_ring(&mut r);
    assert_eq!(tick(&r, true, 5), RingAction::HideWindow);
    assert_eq!(tick(&r, false, 6), RingAction::Nothing);
}
