//! Translation of the low-level mouse message stream into gesture events.
//!
//! The operating-system hook hands every mouse message to
//! [`HookState::on_message`], which decides which [`GestureEvent`] it
//! becomes and whether the message must be swallowed so that a fired
//! gesture does not also open the context menu.

use vstd::prelude::*;
use crate::gesture::GestureEvent;

verus! {

/// The mouse messages the hook distinguishes; positions are in physical
/// pixels.
#[derive(Debug, Clone, Copy, PartialEq, Eq, Structural)]
pub enum MouseMessage {
    LeftButtonDown,
    LeftButtonUp,
    RightButtonDown,
    RightButtonUp,
    Move { x: i32, y: i32 },
    Other,
}

/// What to do with one message: the gesture event to send on, if any, and
/// whether to keep the message from the rest of the system.
#[derive(Debug, Clone, Copy, PartialEq, Eq, Structural)]
pub struct HookDecision {
    pub event: Option<GestureEvent>,
    pub swallow: bool,
}

/// The hook's memory between messages.
pub struct HookState {
    suppress_buttons: bool,
    left_down: bool,
    right_down: bool,
    last_x: i32,
    last_y: i32,
    pos_initialized: bool,
}

/// The abstract state of a [`HookState`].
pub struct HookView {
    /// Swallow button-ups until both buttons have been seen up.
    pub suppress_buttons: bool,
    pub left_down: bool,
    pub right_down: bool,
    /// Last observed cursor position.
    pub last_x: i32,
    pub last_y: i32,
    /// Whether a cursor position has been observed yet.
    pub pos_initialized: bool,
}

impl View for HookState {
    type V = HookView;

    closed spec fn view(&self) -> HookView {
        HookView {
            suppress_buttons: self.suppress_buttons,
            left_down: self.left_down,
            right_down: self.right_down,
            last_x: self.last_x,
            last_y: self.last_y,
            pos_initialized: self.pos_initialized,
        }
    }
}

/// The hook's handling of one message: the state after it and the decision.
pub open spec fn hook_step(v: HookView, msg: MouseMessage) -> (HookView, HookDecision) {
    match msg {
        MouseMessage::LeftButtonDown => (
            HookView { left_down: true, ..v },
            HookDecision { event: Some(GestureEvent::LeftDown), swallow: false },
        ),
        MouseMessage::RightButtonDown => (
            HookView { right_down: true, ..v },
            HookDecision { event: Some(GestureEvent::RightDown), swallow: false },
        ),
        MouseMessage::LeftButtonUp => (
            HookView {
                left_down: false,
                suppress_buttons: v.suppress_buttons && v.right_down,
                ..v
            },
            HookDecision { event: Some(GestureEvent::LeftUp), swallow: v.suppress_buttons },
        ),
        MouseMessage::RightButtonUp => (
            HookView {
                right_down: false,
                suppress_buttons: v.suppress_buttons && v.left_down,
                ..v
            },
            HookDecision { event: Some(GestureEvent::RightUp), swallow: v.suppress_buttons },
        ),
        MouseMessage::Move { x, y } => (
            HookView { last_x: x, last_y: y, pos_initialized: true, ..v },
            HookDecision {
                event: if v.pos_initialized {
                    Some(GestureEvent::Move { dx: (x - v.last_x) as i32, dy: (y - v.last_y) as i32 })
                } else {
                    None
                },
                swallow: false,
            },
        ),
        MouseMessage::Other => (v, HookDecision { event: None, swallow: false }),
    }
}

/// The message can be handled without overflow: a move's displacement from
/// the last observed position fits in an `i32`.
pub open spec fn hook_in_range(v: HookView, msg: MouseMessage) -> bool {
    msg matches MouseMessage::Move { x, y } ==> v.pos_initialized ==> {
        &&& i32::MIN <= x - v.last_x <= i32::MAX
        &&& i32::MIN <= y - v.last_y <= i32::MAX
    }
}

impl HookState {
    /// No button down, nothing suppressed, no position observed yet.
    pub fn new() -> (h: Self)
        ensures
            h@ == (HookView {
                suppress_buttons: false,
                left_down: false,
                right_down: false,
                last_x: 0,
                last_y: 0,
                pos_initialized: false,
            }),
    {
        HookState {
            suppress_buttons: false,
            left_down: false,
            right_down: false,
            last_x: 0,
            last_y: 0,
            pos_initialized: false,
        }
    }

    /// Record the cursor position read before the hook is installed, so the
    /// first move reports a small displacement.
    pub fn seed_position(&mut self, x: i32, y: i32)
        ensures
            final(self)@ == (HookView { last_x: x, last_y: y, pos_initialized: true, ..old(self)@ }),
    {
        self.last_x = x;
        self.last_y = y;
        self.pos_initialized = true;
    }

    /// Whether `msg` can be handled without integer overflow (see
    /// [`hook_in_range`]).
    pub fn accepts(&self, msg: MouseMessage) -> (b: bool)
        ensures
            b == hook_in_range(self@, msg),
    {
        match msg {
            MouseMessage::Move { x, y } => {
                if !self.pos_initialized {
                    return true;
                }
                let dx: i64 = x as i64 - self.last_x as i64;
                let dy: i64 = y as i64 - self.last_y as i64;
                i32::MIN as i64 <= dx && dx <= i32::MAX as i64 && i32::MIN as i64 <= dy && dy
                    <= i32::MAX as i64
            },
            _ => true,
        }
    }

    /// Handle one mouse message.
    pub fn on_message(&mut self, msg: MouseMessage) -> (d: HookDecision)
        requires
            hook_in_range(old(self)@, msg),
        ensures
            (final(self)@, d) == hook_step(old(self)@, msg),
    {
        match msg {
            MouseMessage::LeftButtonDown => {
                self.left_down = true;
                HookDecision { event: Some(GestureEvent::LeftDown), swallow: false }
            },
            MouseMessage::RightButtonDown => {
                self.right_down = true;
                HookDecision { event: Some(GestureEvent::RightDown), swallow: false }
            },
            MouseMessage::LeftButtonUp => {
                self.left_down = false;
                let should_swallow = self.suppress_buttons;
                if !self.right_down {
                    self.suppress_buttons = false;
                }
                HookDecision { event: Some(GestureEvent::LeftUp), swallow: should_swallow }
            },
            MouseMessage::RightButtonUp => {
                self.right_down = false;
                let should_swallow = self.suppress_buttons;
                if !self.left_down {
                    self.suppress_buttons = false;
                }
                HookDecision { event: Some(GestureEvent::RightUp), swallow: should_swallow }
            },
            MouseMessage::Move { x, y } => {
                let prev_x = self.last_x;
                let prev_y = self.last_y;
                self.last_x = x;
                self.last_y = y;
                let was_initialized = self.pos_initialized;
                self.pos_initialized = true;
                if was_initialized {
                    HookDecision {
                        event: Some(GestureEvent::Move { dx: x - prev_x, dy: y - prev_y }),
                        swallow: false,
                    }
                } else {
                    HookDecision { event: None, swallow: false }
                }
            },
            MouseMessage::Other => HookDecision { event: None, swallow: false },
        }
    }
}

/// Tell the hook to swallow the upcoming left and right button-ups. Called
/// right after a gesture fires; the suppression ends by itself once both
/// buttons have been observed up.
pub fn suppress_until_release(hook: &mut HookState)
    ensures
        final(hook)@ == (HookView { suppress_buttons: true, ..old(hook)@ }),
{
    hook.suppress_buttons = true;
}

/// Presses and moves are never swallowed; a button-up is swallowed exactly
/// when suppression is on, and suppression ends once the release leaves
/// both buttons up.
pub proof fn lemma_only_suppressed_releases_are_swallowed(v: HookView, msg: MouseMessage)
    ensures
        hook_step(v, msg).1.swallow <==> (v.suppress_buttons && (msg is LeftButtonUp
            || msg is RightButtonUp)),
        (msg is LeftButtonUp || msg is RightButtonUp) ==> (hook_step(v, msg).0.suppress_buttons
            <==> (v.suppress_buttons && (hook_step(v, msg).0.left_down
            || hook_step(v, msg).0.right_down))),
{
}

/// After a fire, holding both buttons and releasing them one after the
/// other swallows both releases and leaves suppression off.
pub proof fn lemma_fired_chord_release_is_swallowed(v: HookView, first: MouseMessage, second: MouseMessage)
    requires
        v.left_down && v.right_down,
        (first is LeftButtonUp && second is RightButtonUp) || (first is RightButtonUp
            && second is LeftButtonUp),
    ensures
        ({
            let s = HookView { suppress_buttons: true, ..v };
            let (s1, d1) = hook_step(s, first);
            let (s2, d2) = hook_step(s1, second);
            d1.swallow && d2.swallow && !s2.suppress_buttons && !s2.left_down && !s2.right_down
        }),
{
}

/// Every button message is passed on as the matching gesture event, and a
/// move reports the displacement from the last observed position.
pub proof fn lemma_events_follow_messages(v: HookView, msg: MouseMessage)
    requires
        hook_in_range(v, msg),
    ensures
        msg is LeftButtonDown ==> hook_step(v, msg).1.event == Some(GestureEvent::LeftDown),
        msg is LeftButtonUp ==> hook_step(v, msg).1.event == Some(GestureEvent::LeftUp),
        msg is RightButtonDown ==> hook_step(v, msg).1.event == Some(GestureEvent::RightDown),
        msg is RightButtonUp ==> hook_step(v, msg).1.event == Some(GestureEvent::RightUp),
        msg is Other ==> hook_step(v, msg).1.event is None,
        msg is Move && !v.pos_initialized ==> hook_step(v, msg).1.event is None,
        msg is Move && v.pos_initialized ==> {
            &&& hook_step(v, msg).1.event matches Some(GestureEvent::Move { .. })
            &&& hook_step(v, msg).1.event->0->dx == msg->x - v.last_x
            &&& hook_step(v, msg).1.event->0->dy == msg->y - v.last_y
        },
{
}

/// A move always records the new cursor position, whatever came before,
/// and changes nothing else.
pub proof fn lemma_move_records_position(v: HookView, x: i32, y: i32)
    ensures
        hook_step(v, MouseMessage::Move { x, y }).0.last_x == x,
        hook_step(v, MouseMessage::Move { x, y }).0.last_y == y,
        hook_step(v, MouseMessage::Move { x, y }).0.pos_initialized,
        hook_step(v, MouseMessage::Move { x, y }).0.left_down == v.left_down,
        hook_step(v, MouseMessage::Move { x, y }).0.right_down == v.right_down,
        hook_step(v, MouseMessage::Move { x, y }).0.suppress_buttons == v.suppress_buttons,
        !hook_step(v, MouseMessage::Move { x, y }).1.swallow,
{
}

/// Consecutive moves report consecutive displacements: after a move to
/// (`x1`, `y1`), a move to (`x2`, `y2`) reports exactly the step between
/// the two points, however the position was known before.
pub proof fn lemma_consecutive_moves(v: HookView, x1: i32, y1: i32, x2: i32, y2: i32)
    requires
        i32::MIN <= x2 - x1 <= i32::MAX,
        i32::MIN <= y2 - y1 <= i32::MAX,
    ensures
        ({
            let (v1, _) = hook_step(v, MouseMessage::Move { x: x1, y: y1 });
            let (v2, d2) = hook_step(v1, MouseMessage::Move { x: x2, y: y2 });
            &&& d2.event == Some(GestureEvent::Move { dx: (x2 - x1) as i32, dy: (y2 - y1) as i32 })
            &&& v2.last_x == x2 && v2.last_y == y2
        }),
{
}

} // verus!
