//! Shared state of the cursor-ring overlay.
//!
//! The daemon's main loop shows and hides the ring; the overlay thread reads
//! the shared state on every timer tick and decides what to draw. The
//! drawing itself (anti-aliased pixels) is done by the overlay thread.

use vstd::prelude::*;

verus! {

/// Side of the square ring window, in pixels.
pub const RING_SIZE: u32 = 48;

/// What the main loop tells the overlay.
pub struct RingShared {
    showing: bool,
    cursor_x: i32,
    cursor_y: i32,
    began_at_ms: u64,
    threshold_ms: u64,
}

/// The abstract state of a [`RingShared`].
pub struct RingView {
    pub showing: bool,
    pub cursor_x: i32,
    pub cursor_y: i32,
    pub began_at_ms: u64,
    pub threshold_ms: u64,
}

impl View for RingShared {
    type V = RingView;

    closed spec fn view(&self) -> RingView {
        RingView {
            showing: self.showing,
            cursor_x: self.cursor_x,
            cursor_y: self.cursor_y,
            began_at_ms: self.began_at_ms,
            threshold_ms: self.threshold_ms,
        }
    }
}

/// What the overlay does on a timer tick.
#[derive(Debug, Clone, Copy, PartialEq, Eq, Structural)]
pub enum RingAction {
    /// Nothing to do.
    Nothing,
    /// Hide the window.
    HideWindow,
    /// Draw the ring with progress `elapsed_ms / threshold_ms` (clamped to
    /// one) with the window's top-left corner at (`x`, `y`), and show the
    /// window if `show_window`.
    Draw { elapsed_ms: u64, threshold_ms: u64, x: i32, y: i32, show_window: bool },
}

/// The threshold actually used: never zero.
pub open spec fn effective_threshold(ms: u64) -> u64 {
    if ms == 0 {
        1
    } else {
        ms
    }
}

/// The tick's decision for shared state `v`, a window that is `visible`, at
/// time `now_ms`.
pub open spec fn tick_action(v: RingView, visible: bool, now_ms: u64) -> RingAction {
    if !v.showing {
        if visible {
            RingAction::HideWindow
        } else {
            RingAction::Nothing
        }
    } else {
        RingAction::Draw {
            elapsed_ms: if now_ms >= v.began_at_ms {
                (now_ms - v.began_at_ms) as u64
            } else {
                0
            },
            threshold_ms: effective_threshold(v.threshold_ms),
            x: (v.cursor_x - RING_SIZE / 2) as i32,
            y: (v.cursor_y - RING_SIZE / 2) as i32,
            show_window: !visible,
        }
    }
}

/// Whether the window is visible after the tick's action.
pub open spec fn visible_after(visible: bool, action: RingAction) -> bool {
    match action {
        RingAction::Nothing => visible,
        RingAction::HideWindow => false,
        RingAction::Draw { .. } => true,
    }
}

/// The ring window can be centred on the stored cursor without overflow.
pub open spec fn ring_in_range(v: RingView) -> bool {
    v.cursor_x >= i32::MIN + RING_SIZE / 2 && v.cursor_y >= i32::MIN + RING_SIZE / 2
}

impl RingShared {
    /// Hidden, with the default 250 ms threshold.
    pub fn new() -> (r: Self)
        ensures
            r@ == (RingView {
                showing: false,
                cursor_x: 0,
                cursor_y: 0,
                began_at_ms: 0,
                threshold_ms: 250,
            }),
    {
        RingShared { showing: false, cursor_x: 0, cursor_y: 0, began_at_ms: 0, threshold_ms: 250 }
    }
}

/// Show the ring centred on (`x`, `y`), starting to fill at `now_ms` and
/// full after `hold_threshold_ms` (at least 1 ms).
pub fn show(ring: &mut RingShared, x: i32, y: i32, now_ms: u64, hold_threshold_ms: u64)
    ensures
        final(ring)@ == (RingView {
            showing: true,
            cursor_x: x,
            cursor_y: y,
            began_at_ms: now_ms,
            threshold_ms: effective_threshold(hold_threshold_ms),
        }),
{
    ring.cursor_x = x;
    ring.cursor_y = y;
    ring.began_at_ms = now_ms;
    ring.threshold_ms = if hold_threshold_ms > 1 {
        hold_threshold_ms
    } else {
        1
    };
    ring.showing = true;
}

/// Hide the ring.
pub fn hide_ring(ring: &mut RingShared)
    ensures
        final(ring)@ == (RingView { showing: false, ..old(ring)@ }),
{
    ring.showing = false;
}

/// Decide what the overlay does on a timer tick at `now_ms`, given whether
/// its window is currently `visible`.
pub fn tick(ring: &RingShared, visible: bool, now_ms: u64) -> (a: RingAction)
    requires
        ring@.showing ==> ring_in_range(ring@),
    ensures
        a == tick_action(ring@, visible, now_ms),
{
    if !ring.showing {
        if visible {
            return RingAction::HideWindow;
        }
        return RingAction::Nothing;
    }
    let elapsed_ms = now_ms.saturating_sub(ring.began_at_ms);
    let threshold_ms = if ring.threshold_ms > 1 {
        ring.threshold_ms
    } else {
        1
    };
    let half: i32 = 24;
    RingAction::Draw {
        elapsed_ms,
        threshold_ms,
        x: ring.cursor_x - half,
        y: ring.cursor_y - half,
        show_window: !visible,
    }
}

/// The ring's progress is never divided by zero, never shows progress from
/// before it began, and a drawn ring leaves the window visible.
pub proof fn lemma_tick_is_sound(v: RingView, visible: bool, now_ms: u64)
    ensures
        tick_action(v, visible, now_ms) matches RingAction::Draw { elapsed_ms, threshold_ms, .. }
            ==> threshold_ms >= 1 && elapsed_ms <= now_ms,
        visible_after(visible, tick_action(v, visible, now_ms)) == v.showing,
{
}

/// Showing then hiding leaves the overlay to hide its window on the next
/// tick if it was visible, and to do nothing otherwise.
pub proof fn lemma_hide_stops_drawing(v: RingView, visible: bool, now_ms: u64)
    ensures
        tick_action(RingView { showing: false, ..v }, visible, now_ms) == (if visible {
            RingAction::HideWindow
        } else {
            RingAction::Nothing
        }),
{
}

} // verus!
