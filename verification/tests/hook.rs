use glimpse::gesture::GestureEvent;
use glimpse::hook::{suppress_until_release, HookDecision, HookState, MouseMessage};

#[test]
fn buttons_pass_through_as_events() {
    let mut h = HookState::new();
    assert_eq!(
        h.on_message(MouseMessage::LeftButtonDown),
        HookDecision { event: Some(GestureEvent::LeftDown), swallow: false }
    );
    assert_eq!(
        h.on_message(MouseMessage::RightButtonDown),
        HookDecision { event: Some(GestureEvent::RightDown), swallow: false }
    );
    assert_eq!(
        h.on_message(MouseMessage::LeftButtonUp),
        HookDecision { event: Some(GestureEvent::LeftUp), swallow: false }
    );
    assert_eq!(
        h.on_message(MouseMessage::Other),
        HookDecision { event: None, swallow: false }
    );
}

#[test]
fn first_move_without_seed_is_not_reported() {
    let mut h = HookState::new();
    assert_eq!(h.on_message(MouseMessage::Move { x: 100, y: 50 }).event, None);
    assert_eq!(
        h.on_message(MouseMessage::Move { x: 103, y: 46 }).event,
        Some(GestureEvent::Move { dx: 3, dy: -4 })
    );
}

#[test]
fn seeded_position_gives_small_first_delta() {
    let mut h = HookState::new();
    h.seed_position(10, 10);
    assert_eq!(
        h.on_message(MouseMessage::Move { x: 11, y: 9 }).event,
        Some(GestureEvent::Move { dx: 1, dy: -1 })
    );
}

#[test]
fn fired_chord_releases_are_swallowed_then_suppression_ends() {
    let mut h = HookState::new();
    h.on_message(MouseMessage::LeftButtonDown);
    h.on_message(MouseMessage::RightButtonDown);
    suppress_until_release(&mut h);
    let d1 = h.on_message(MouseMessage::RightButtonUp);
    assert_eq!(d1, HookDecision { event: Some(GestureEvent::RightUp), swallow: true });
    let d2 = h.on_message(MouseMessage::LeftButtonUp);
    assert_eq!(d2, HookDecision { event: Some(GestureEvent::LeftUp), swallow: true });
    // A later, ordinary click goes through.
    h.on_message(MouseMessage::RightButtonDown);
    assert!(!h.on_message(MouseMessage::RightButtonUp).swallow);
}
