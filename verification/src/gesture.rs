//! Mouse-gesture state machine.
//!
//! Consumes raw mouse events and emits high-level outcomes ("fire OCR",
//! "cancelled", "still holding"). It knows nothing of the operating system,
//! so every rule is stated and proved here.
//!
//! Times are nanoseconds on one monotonic clock per recogniser:
//! [`Gesture::now_ns`] reads it, `process` stamps button presses with it,
//! and the daemon stamps its periodic `Tick` events with it.

use vstd::prelude::*;

verus! {

/// Raw input events fed in from the mouse hook.
#[derive(Debug, Clone, Copy, PartialEq, Eq, Structural)]
pub enum GestureEvent {
    LeftDown,
    LeftUp,
    RightDown,
    RightUp,
    Move { dx: i32, dy: i32 },
    /// A periodic tick (e.g. every 16 ms) so the state machine can detect
    /// the hold threshold without polling the clock itself; `now` is in
    /// nanoseconds.
    Tick { now: u64 },
}

/// What the gesture state machine wants the daemon to do next.
#[derive(Debug, Clone, Copy, PartialEq, Eq, Structural)]
pub enum GestureOutcome {
    /// No visible change; keep listening.
    Idle,
    /// Both buttons pressed; render the progress ring at the cursor.
    HoldStarted { began_at: u64 },
    /// Hold cancelled (button released early, or cursor moved too far).
    /// The daemon should hide the ring.
    HoldCancelled,
    /// Hold threshold reached. The daemon should suppress the imminent
    /// right-click context menu, capture the cursor position and run
    /// capture and OCR.
    Fire,
}

/// Where the gesture stands.
#[derive(Debug, Clone, Copy, PartialEq, Eq, Structural)]
pub enum Phase {
    /// No button down.
    Neutral,
    /// At least one button down, no hold in progress.
    OneDown,
    /// Both buttons down since `began_at` (ns); the cursor has drifted
    /// `drift` pixels (Manhattan distance) since.
    Holding { began_at: u64, drift: i32 },
    /// The hold reached its threshold and fired; waits for a release.
    Fired,
}

/// The gesture recogniser.
#[derive(Debug)]
pub struct Gesture {
    /// Origin of the recogniser's clock.
    epoch: std::time::Instant,
    state: Phase,
    left_down: bool,
    right_down: bool,
    /// Hold duration before firing, in nanoseconds.
    pub hold_threshold: u64,
    /// Cursor drift allowed during the hold, in physical pixels.
    pub drift_limit_px: i32,
}

/// The abstract state of a [`Gesture`].
pub struct GestureView {
    pub phase: Phase,
    pub left_down: bool,
    pub right_down: bool,
    pub hold_threshold: u64,
    pub drift_limit_px: i32,
}

impl View for Gesture {
    type V = GestureView;

    closed spec fn view(&self) -> GestureView {
        GestureView {
            phase: self.state,
            left_down: self.left_down,
            right_down: self.right_down,
            hold_threshold: self.hold_threshold,
            drift_limit_px: self.drift_limit_px,
        }
    }
}

/// The phase agrees with the buttons: no hold without both buttons down,
/// and drift is never negative.
pub open spec fn wf(v: GestureView) -> bool {
    match v.phase {
        Phase::Neutral => !v.left_down && !v.right_down,
        Phase::OneDown => v.left_down || v.right_down,
        Phase::Holding { began_at, drift } => v.left_down && v.right_down && drift >= 0,
        Phase::Fired => v.left_down && v.right_down,
    }
}

pub open spec fn abs_int(x: i32) -> int {
    if x < 0 {
        -x
    } else {
        x as int
    }
}

/// The Manhattan length of a cursor move.
pub open spec fn move_len(dx: i32, dy: i32) -> int {
    abs_int(dx) + abs_int(dy)
}

/// Nanoseconds from `began_at` to `now`, or zero when `now` is earlier.
pub open spec fn elapsed(now: u64, began_at: u64) -> int {
    if now >= began_at {
        now - began_at
    } else {
        0
    }
}

/// A button went down (the buttons in `v` already record it).
pub open spec fn after_press(v: GestureView, now: u64) -> (GestureView, GestureOutcome) {
    if v.left_down && v.right_down {
        if v.phase is Neutral || v.phase is OneDown {
            (
                GestureView { phase: Phase::Holding { began_at: now, drift: 0 }, ..v },
                GestureOutcome::HoldStarted { began_at: now },
            )
        } else {
            (v, GestureOutcome::Idle)
        }
    } else if (v.left_down || v.right_down) && v.phase is Neutral {
        (GestureView { phase: Phase::OneDown, ..v }, GestureOutcome::Idle)
    } else {
        (v, GestureOutcome::Idle)
    }
}

/// A button went up (the buttons in `v` already record it). A hold in
/// progress is cancelled; after a fire the release is quiet.
pub open spec fn after_release(v: GestureView) -> (GestureView, GestureOutcome) {
    let phase = if !v.left_down && !v.right_down {
        Phase::Neutral
    } else {
        Phase::OneDown
    };
    let outcome = if v.phase is Holding {
        GestureOutcome::HoldCancelled
    } else {
        GestureOutcome::Idle
    };
    (GestureView { phase, ..v }, outcome)
}

/// The cursor moved `delta` pixels.
pub open spec fn after_drift(v: GestureView, delta: int) -> (GestureView, GestureOutcome) {
    match v.phase {
        Phase::Holding { began_at, drift } => {
            if drift + delta > v.drift_limit_px {
                (GestureView { phase: Phase::OneDown, ..v }, GestureOutcome::HoldCancelled)
            } else {
                (
                    GestureView {
                        phase: Phase::Holding { began_at, drift: (drift + delta) as i32 },
                        ..v
                    },
                    GestureOutcome::Idle,
                )
            }
        },
        _ => (v, GestureOutcome::Idle),
    }
}

/// The clock reads `now`.
pub open spec fn after_tick(v: GestureView, now: u64) -> (GestureView, GestureOutcome) {
    match v.phase {
        Phase::Holding { began_at, drift } => {
            if elapsed(now, began_at) >= v.hold_threshold {
                (GestureView { phase: Phase::Fired, ..v }, GestureOutcome::Fire)
            } else {
                (v, GestureOutcome::Idle)
            }
        },
        _ => (v, GestureOutcome::Idle),
    }
}

/// One step of the recogniser: the state after `event` and what the daemon
/// should do. `now` is the time at which a button press is handled.
pub open spec fn step(v: GestureView, event: GestureEvent, now: u64) -> (GestureView, GestureOutcome) {
    match event {
        GestureEvent::LeftDown => after_press(GestureView { left_down: true, ..v }, now),
        GestureEvent::RightDown => after_press(GestureView { right_down: true, ..v }, now),
        GestureEvent::LeftUp => after_release(GestureView { left_down: false, ..v }),
        GestureEvent::RightUp => after_release(GestureView { right_down: false, ..v }),
        GestureEvent::Move { dx, dy } => after_drift(v, move_len(dx, dy)),
        GestureEvent::Tick { now: t } => after_tick(v, t),
    }
}

/// The event can be handled without integer overflow: a move's components
/// have absolute values whose sum, and whose sum with the drift of a hold in
/// progress, fit in an `i32`.
pub open spec fn in_range(v: GestureView, event: GestureEvent) -> bool {
    match event {
        GestureEvent::Move { dx, dy } => {
            &&& dx != i32::MIN
            &&& dy != i32::MIN
            &&& move_len(dx, dy) <= i32::MAX
            &&& (v.phase matches Phase::Holding { drift, .. } ==> drift + move_len(dx, dy)
                <= i32::MAX)
        },
        _ => true,
    }
}

/// `Instant::now`: a reading of the monotonic clock. Nothing is promised
/// of it.
#[verifier::external_body]
fn instant_now() -> std::time::Instant {
    std::time::Instant::now()
}

/// `Instant::elapsed`: the time since `epoch` on the monotonic clock.
/// Nothing is promised of it.
#[verifier::external_body]
fn elapsed_since(epoch: &std::time::Instant) -> std::time::Duration {
    epoch.elapsed()
}

/// `Duration::as_nanos`: the whole nanoseconds of `d`.
#[verifier::external_body]
fn whole_nanos(d: std::time::Duration) -> u128 {
    d.as_nanos()
}

/// `ns` capped at `u64::MAX`.
pub open spec fn saturated(ns: u128) -> u64 {
    if ns > u64::MAX {
        u64::MAX
    } else {
        ns as u64
    }
}

/// A clock reading in nanoseconds as a `u64`: the reading itself while it
/// fits (some 584 years), `u64::MAX` after that.
pub fn saturate(ns: u128) -> (r: u64)
    ensures
        r == saturated(ns),
        ns <= u64::MAX ==> r == ns,
        ns > u64::MAX ==> r == u64::MAX,
{
    if ns > u64::MAX as u128 {
        u64::MAX
    } else {
        ns as u64
    }
}

fn abs_i32(x: i32) -> (r: i32)
    requires
        x != i32::MIN,
    ensures
        r == abs_int(x),
{
    if x < 0 {
        -x
    } else {
        x
    }
}

impl Default for Gesture {
    /// A recogniser at rest, firing after 250 ms and cancelling beyond
    /// 5 pixels of drift.
    fn default() -> (g: Self)
        ensures
            g@ == (GestureView {
                phase: Phase::Neutral,
                left_down: false,
                right_down: false,
                hold_threshold: 250_000_000,
                drift_limit_px: 5,
            }),
    {
        Gesture {
            epoch: instant_now(),
            state: Phase::Neutral,
            left_down: false,
            right_down: false,
            hold_threshold: 250_000_000,
            drift_limit_px: 5,
        }
    }
}

impl Gesture {
    /// A recogniser at rest with the given hold threshold (ns) and drift
    /// limit (pixels).
    pub fn new(hold_threshold: u64, drift_limit_px: i32) -> (g: Self)
        ensures
            g@ == (GestureView {
                phase: Phase::Neutral,
                left_down: false,
                right_down: false,
                hold_threshold,
                drift_limit_px,
            }),
            wf(g@),
    {
        Gesture { hold_threshold, drift_limit_px, ..Self::default() }
    }

    /// Whether `event` can be processed without integer overflow (see
    /// [`in_range`]); the hook tests this before handing an event over.
    pub fn accepts(&self, event: GestureEvent) -> (b: bool)
        ensures
            b == in_range(self@, event),
    {
        match event {
            GestureEvent::Move { dx, dy } => {
                if dx == i32::MIN || dy == i32::MIN {
                    return false;
                }
                let len: i64 = abs_i32(dx) as i64 + abs_i32(dy) as i64;
                if len > i32::MAX as i64 {
                    return false;
                }
                match self.state {
                    Phase::Holding { drift, .. } => drift as i64 + len <= i32::MAX as i64,
                    _ => true,
                }
            },
            _ => true,
        }
    }

    /// Process a single event and return what the daemon should do. A
    /// button press is stamped with the current time of the clock.
    pub fn process(&mut self, event: GestureEvent) -> (out: GestureOutcome)
        requires
            wf(old(self)@),
            in_range(old(self)@, event),
        ensures
            exists|now: u64| (final(self)@, out) == step(old(self)@, event, now),
            wf(final(self)@),
    {
        let now = self.now_ns();
        self.process_at(event, now)
    }

    /// Nanoseconds elapsed on the recogniser's monotonic clock since it
    /// was created (saturating at `u64::MAX`, some 584 years); the time
    /// `process` stamps a press with, and the time to put in `Tick` events.
    pub fn now_ns(&self) -> u64 {
        saturate(whole_nanos(elapsed_since(&self.epoch)))
    }

    /// Process a single event, with a button press stamped at `now` (ns).
    pub fn process_at(&mut self, event: GestureEvent, now: u64) -> (out: GestureOutcome)
        requires
            wf(old(self)@),
            in_range(old(self)@, event),
        ensures
            (final(self)@, out) == step(old(self)@, event, now),
            wf(final(self)@),
    {
        match event {
            GestureEvent::LeftDown => {
                self.left_down = true;
                self.maybe_begin_hold(now)
            },
            GestureEvent::RightDown => {
                self.right_down = true;
                self.maybe_begin_hold(now)
            },
            GestureEvent::LeftUp => {
                self.left_down = false;
                self.maybe_cancel()
            },
            GestureEvent::RightUp => {
                self.right_down = false;
                self.maybe_cancel()
            },
            GestureEvent::Move { dx, dy } => self.accumulate_drift(abs_i32(dx) + abs_i32(dy)),
            GestureEvent::Tick { now } => self.maybe_fire(now),
        }
    }

    fn maybe_begin_hold(&mut self, now: u64) -> (out: GestureOutcome)
        ensures
            (final(self)@, out) == after_press(old(self)@, now),
    {
        if self.left_down && self.right_down {
            if matches!(self.state, Phase::Neutral | Phase::OneDown) {
                self.state = Phase::Holding { began_at: now, drift: 0 };
                return GestureOutcome::HoldStarted { began_at: now };
            }
        } else if self.left_down || self.right_down {
            if matches!(self.state, Phase::Neutral) {
                self.state = Phase::OneDown;
            }
        }
        GestureOutcome::Idle
    }

    fn maybe_cancel(&mut self) -> (out: GestureOutcome)
        ensures
            (final(self)@, out) == after_release(old(self)@),
    {
        let was_holding = matches!(self.state, Phase::Holding { .. });
        if !self.left_down && !self.right_down {
            self.state = Phase::Neutral;
        } else {
            self.state = Phase::OneDown;
        }
        if was_holding {
            GestureOutcome::HoldCancelled
        } else {
            GestureOutcome::Idle
        }
    }

    fn accumulate_drift(&mut self, delta: i32) -> (out: GestureOutcome)
        requires
            old(self)@.phase matches Phase::Holding { drift, .. } ==> drift + delta <= i32::MAX,
            delta >= 0 || !(old(self)@.phase is Holding),
        ensures
            (final(self)@, out) == after_drift(old(self)@, delta as int),
    {
        if let Phase::Holding { began_at, drift } = self.state {
            let new = drift + delta;
            if new > self.drift_limit_px {
                self.state = Phase::OneDown;
                return GestureOutcome::HoldCancelled;
            }
            self.state = Phase::Holding { began_at, drift: new };
        }
        GestureOutcome::Idle
    }

    fn maybe_fire(&mut self, now: u64) -> (out: GestureOutcome)
        ensures
            (final(self)@, out) == after_tick(old(self)@, now),
    {
        if let Phase::Holding { began_at, .. } = self.state {
            let waited = if now >= began_at {
                now - began_at
            } else {
                0
            };
            if waited >= self.hold_threshold {
                self.state = Phase::Fired;
                return GestureOutcome::Fire;
            }
        }
        GestureOutcome::Idle
    }
}

/// Every step keeps the phase in agreement with the buttons.
pub proof fn lemma_step_keeps_wf(v: GestureView, event: GestureEvent, now: u64)
    requires
        wf(v),
        in_range(v, event),
    ensures
        wf(step(v, event, now).0),
{
}

/// The configuration (threshold and drift limit) is never changed by an
/// event.
pub proof fn lemma_step_keeps_config(v: GestureView, event: GestureEvent, now: u64)
    ensures
        step(v, event, now).0.hold_threshold == v.hold_threshold,
        step(v, event, now).0.drift_limit_px == v.drift_limit_px,
{
}

/// A hold starts only when a press leaves both buttons down, from rest or
/// from a single button; it starts at the press time with no drift. A
/// single button never starts a hold.
pub proof fn lemma_hold_needs_both_buttons(v: GestureView, event: GestureEvent, now: u64)
    requires
        wf(v),
    ensures
        step(v, event, now).1 is HoldStarted ==> {
            &&& event is LeftDown || event is RightDown
            &&& step(v, event, now).0.left_down && step(v, event, now).0.right_down
            &&& v.phase is Neutral || v.phase is OneDown
            &&& step(v, event, now).1 == GestureOutcome::HoldStarted { began_at: now }
            &&& step(v, event, now).0.phase == Phase::Holding { began_at: now, drift: 0 }
        },
        !(step(v, event, now).0.left_down && step(v, event, now).0.right_down)
            ==> !(step(v, event, now).0.phase is Holding),
{
}

/// Releasing either button while holding cancels the hold.
pub proof fn lemma_release_cancels_hold(v: GestureView, event: GestureEvent, now: u64)
    requires
        v.phase is Holding,
        event is LeftUp || event is RightUp,
    ensures
        step(v, event, now).1 == GestureOutcome::HoldCancelled,
        !(step(v, event, now).0.phase is Holding),
{
}

/// Moving the cursor during a hold cancels it exactly when the total drift
/// exceeds the limit; otherwise the drift is accumulated.
pub proof fn lemma_drift_cancels(v: GestureView, began_at: u64, drift: i32, dx: i32, dy: i32, now: u64)
    requires
        v.phase == (Phase::Holding { began_at, drift }),
    ensures
        drift + move_len(dx, dy) > v.drift_limit_px ==> step(
            v,
            GestureEvent::Move { dx, dy },
            now,
        ) == (GestureView { phase: Phase::OneDown, ..v }, GestureOutcome::HoldCancelled),
        drift + move_len(dx, dy) <= v.drift_limit_px ==> step(
            v,
            GestureEvent::Move { dx, dy },
            now,
        ).1 == GestureOutcome::Idle && step(v, GestureEvent::Move { dx, dy }, now).0.phase == (
        Phase::Holding { began_at, drift: (drift + move_len(dx, dy)) as i32 }),
{
}

/// A tick fires exactly when a hold is in progress and the threshold has
/// elapsed since it began.
pub proof fn lemma_fire_iff_threshold(v: GestureView, t: u64, now: u64)
    ensures
        step(v, GestureEvent::Tick { now: t }, now).1 == GestureOutcome::Fire <==> (
        v.phase matches Phase::Holding { began_at, .. } && elapsed(t, began_at)
            >= v.hold_threshold),
        step(v, GestureEvent::Tick { now: t }, now).1 == GestureOutcome::Fire ==> step(
            v,
            GestureEvent::Tick { now: t },
            now,
        ).0.phase is Fired,
{
}

/// A hold fires at most once: once fired, no event fires again, and only a
/// release leaves the fired phase (quietly).
pub proof fn lemma_fires_once(v: GestureView, event: GestureEvent, now: u64)
    requires
        v.phase is Fired,
    ensures
        step(v, event, now).1 != GestureOutcome::Fire,
        step(v, event, now).1 == GestureOutcome::Idle,
        !(event is LeftUp || event is RightUp) ==> step(v, event, now).0.phase is Fired,
{
}

/// A history of handled events: each event with the time at which
/// `process` stamped it (the time a press starts a hold at).
pub type History = Seq<(GestureEvent, u64)>;

/// The state after handling `history` in order, from `v`.
pub open spec fn run(v: GestureView, history: History) -> GestureView
    decreases history.len(),
{
    if history.len() == 0 {
        v
    } else {
        let (event, now) = history.last();
        step(run(v, history.drop_last()), event, now).0
    }
}

/// What the `i`-th event of `history` returned, handled from `v`.
pub open spec fn outcome_at(v: GestureView, history: History, i: int) -> GestureOutcome {
    step(run(v, history.take(i)), history[i].0, history[i].1).1
}

/// The Manhattan length of `e` if it is a move, else zero.
pub open spec fn drift_of(e: GestureEvent) -> int {
    match e {
        GestureEvent::Move { dx, dy } => move_len(dx, dy),
        _ => 0,
    }
}

/// The total cursor drift (Manhattan length) of the moves in `history`.
pub open spec fn drift_total(history: History) -> int
    decreases history.len(),
{
    if history.len() == 0 {
        0
    } else {
        drift_total(history.drop_last()) + drift_of(history.last().0)
    }
}

/// `e` leaves a hold that began at `began_at` running (given enough drift
/// budget): a press, a move, or a tick before the threshold.
pub open spec fn keeps_hold(e: GestureEvent, began_at: u64, threshold: u64) -> bool {
    match e {
        GestureEvent::LeftDown | GestureEvent::RightDown | GestureEvent::Move { .. } => true,
        GestureEvent::Tick { now } => elapsed(now, began_at) < threshold,
        _ => false,
    }
}

/// Handling the first `m + 1` entries is handling the first `m`, then
/// entry `m`.
proof fn lemma_run_next(v: GestureView, history: History, m: int)
    requires
        0 <= m < history.len(),
    ensures
        run(v, history.take(m + 1)) == step(
            run(v, history.take(m)),
            history[m].0,
            history[m].1,
        ).0,
{
    assert(history.take(m + 1).drop_last() =~= history.take(m));
}

/// A hold that sees no release, no tick past the threshold and no more
/// drift than the limit stays a hold from the same start, with the drift
/// accumulated.
pub proof fn lemma_hold_persists(v: GestureView, began_at: u64, drift: i32, history: History)
    requires
        wf(v),
        v.phase == (Phase::Holding { began_at, drift }),
        forall|i: int|
            0 <= i < history.len() ==> keeps_hold(#[trigger] history[i].0, began_at, v.hold_threshold),
        drift + drift_total(history) <= v.drift_limit_px,
    ensures
        drift_total(history) >= 0,
        run(v, history) == (GestureView {
            phase: Phase::Holding { began_at, drift: (drift + drift_total(history)) as i32 },
            ..v
        }),
    decreases history.len(),
{
    if history.len() > 0 {
        let prefix = history.drop_last();
        assert forall|i: int| 0 <= i < prefix.len() implies keeps_hold(
            #[trigger] prefix[i].0,
            began_at,
            v.hold_threshold,
        ) by {
            assert(prefix[i] == history[i]);
        }
        assert(keeps_hold(history[history.len() - 1].0, began_at, v.hold_threshold));
        assert(drift_of(history.last().0) >= 0);
        lemma_hold_persists(v, began_at, drift, prefix);
    }
}

/// A held chord that stays within the drift limit fires exactly at the
/// threshold: a tick at or past `began_at + threshold` fires, and an
/// earlier tick leaves the hold running.
pub proof fn lemma_hold_fires_at_threshold(
    v: GestureView,
    began_at: u64,
    drift: i32,
    history: History,
    t: u64,
    stamp: u64,
)
    requires
        wf(v),
        v.phase == (Phase::Holding { began_at, drift }),
        forall|i: int|
            0 <= i < history.len() ==> keeps_hold(#[trigger] history[i].0, began_at, v.hold_threshold),
        drift + drift_total(history) <= v.drift_limit_px,
    ensures
        ({
            let held = run(v, history);
            let (after, out) = step(held, GestureEvent::Tick { now: t }, stamp);
            &&& elapsed(t, began_at) >= v.hold_threshold ==> out == GestureOutcome::Fire
                && after.phase is Fired
            &&& elapsed(t, began_at) < v.hold_threshold ==> out == GestureOutcome::Idle && after
                == held && held.phase is Holding
        }),
{
    lemma_hold_persists(v, began_at, drift, history);
}

/// The whole gesture from rest: pressing both buttons (at `t1`, then
/// `t2`) starts a hold at `t2`; then, through any presses, moves within the
/// drift limit and ticks before the threshold, a final tick at `t` fires
/// exactly when `t` is at least the threshold past `t2`, and otherwise
/// leaves the hold running.
pub proof fn lemma_chord_fires_at_threshold(
    v: GestureView,
    first: GestureEvent,
    second: GestureEvent,
    t1: u64,
    t2: u64,
    rest: History,
    t: u64,
    stamp: u64,
)
    requires
        wf(v),
        v.phase is Neutral,
        (first is LeftDown && second is RightDown) || (first is RightDown && second is LeftDown),
        forall|i: int|
            0 <= i < rest.len() ==> keeps_hold(#[trigger] rest[i].0, t2, v.hold_threshold),
        drift_total(rest) <= v.drift_limit_px,
    ensures
        ({
            let history = seq![(first, t1), (second, t2)] + rest + seq![(GestureEvent::Tick { now: t }, stamp)];
            let last = history.len() - 1;
            &&& outcome_at(v, history, 0) == GestureOutcome::Idle
            &&& outcome_at(v, history, 1) == GestureOutcome::HoldStarted { began_at: t2 }
            &&& elapsed(t, t2) >= v.hold_threshold ==> outcome_at(v, history, last)
                == GestureOutcome::Fire && run(v, history).phase is Fired
            &&& elapsed(t, t2) < v.hold_threshold ==> outcome_at(v, history, last)
                == GestureOutcome::Idle && run(v, history).phase == (Phase::Holding {
                began_at: t2,
                drift: drift_total(rest) as i32,
            })
        }),
{
    let history = seq![(first, t1), (second, t2)] + rest + seq![(GestureEvent::Tick { now: t }, stamp)];
    let last = history.len() - 1;
    lemma_run_next(v, history, 0);
    lemma_run_next(v, history, 1);
    assert(history.take(0) =~= Seq::<(GestureEvent, u64)>::empty());
    let held_from = run(v, history.take(2));
    assert(held_from.phase == Phase::Holding { began_at: t2, drift: 0 });
    assert(wf(held_from));
    let middle = history.subrange(2, last);
    assert(middle =~= rest);
    assert(history.take(last) =~= history.take(2) + middle);
    lemma_run_append(v, history.take(2), middle);
    lemma_hold_fires_at_threshold(held_from, t2, 0, rest, t, stamp);
    assert(history.take(last + 1) =~= history);
    lemma_run_next(v, history, last);
    lemma_hold_persists(held_from, t2, 0, rest);
}

/// Handling `a` then `b` is handling `a + b`.
proof fn lemma_run_append(v: GestureView, a: History, b: History)
    ensures
        run(v, a + b) == run(run(v, a), b),
    decreases b.len(),
{
    if b.len() > 0 {
        assert((a + b).drop_last() =~= a + b.drop_last());
        lemma_run_append(v, a, b.drop_last());
    } else {
        assert(a + b =~= a);
    }
}

/// After a fire and until a fresh hold starts, no hold is in progress.
proof fn lemma_no_hold_without_start(v: GestureView, history: History, i: int, m: int)
    requires
        0 <= i < m <= history.len(),
        outcome_at(v, history, i) == GestureOutcome::Fire,
        forall|k: int| i < k < m ==> !(#[trigger] outcome_at(v, history, k) is HoldStarted),
    ensures
        !(run(v, history.take(m)).phase is Holding),
    decreases m - i,
{
    if m == i + 1 {
        lemma_run_next(v, history, i);
    } else {
        lemma_no_hold_without_start(v, history, i, m - 1);
        lemma_run_next(v, history, m - 1);
        assert(!(outcome_at(v, history, m - 1) is HoldStarted));
    }
}

/// A hold fires once per start: between any two fires in a history some
/// event started a fresh hold.
pub proof fn lemma_fire_needs_fresh_hold(v: GestureView, history: History, i: int, j: int)
    requires
        0 <= i < j < history.len(),
        outcome_at(v, history, i) == GestureOutcome::Fire,
        outcome_at(v, history, j) == GestureOutcome::Fire,
    ensures
        exists|k: int| i < k < j && #[trigger] outcome_at(v, history, k) is HoldStarted,
{
    if !exists|k: int| i < k < j && #[trigger] outcome_at(v, history, k) is HoldStarted {
        lemma_no_hold_without_start(v, history, i, j);
    }
}

/// After a fire, every event up to the next release returns `Idle` and
/// leaves the recogniser fired: drift, ticks and presses after the fire
/// can neither cancel it nor fire again.
pub proof fn lemma_fired_until_release(v: GestureView, history: History, i: int, j: int)
    requires
        0 <= i < j < history.len(),
        outcome_at(v, history, i) == GestureOutcome::Fire,
        forall|k: int| i < k <= j ==> !(#[trigger] history[k].0 is LeftUp || history[k].0 is RightUp),
    ensures
        outcome_at(v, history, j) == GestureOutcome::Idle,
        run(v, history.take(j + 1)).phase is Fired,
    decreases j - i,
{
    if j == i + 1 {
        lemma_run_next(v, history, i);
    } else {
        lemma_fired_until_release(v, history, i, j - 1);
    }
    lemma_run_next(v, history, j);
}

/// Nothing happens while no button is down except that a press is noted;
/// a tick or a move at rest changes nothing.
pub proof fn lemma_rest_is_quiet(v: GestureView, event: GestureEvent, now: u64)
    requires
        wf(v),
        v.phase is Neutral,
        !(event is LeftDown || event is RightDown),
    ensures
        step(v, event, now) == (v, GestureOutcome::Idle),
{
}

/// A cursor move outside a hold is ignored: the state is unchanged and
/// the outcome is `Idle` (a one-button drag has nothing to cancel).
pub proof fn lemma_move_outside_hold_is_quiet(v: GestureView, dx: i32, dy: i32, now: u64)
    requires
        !(v.phase is Holding),
    ensures
        step(v, GestureEvent::Move { dx, dy }, now) == (v, GestureOutcome::Idle),
{
}

/// Only a hold in progress can be cancelled, only a hold can fire, and a
/// hold starts only from a phase with no hold.
pub proof fn lemma_outcomes_need_phases(v: GestureView, event: GestureEvent, now: u64)
    ensures
        step(v, event, now).1 == GestureOutcome::HoldCancelled ==> v.phase is Holding,
        step(v, event, now).1 == GestureOutcome::Fire ==> v.phase is Holding && event is Tick,
        step(v, event, now).1 is HoldStarted ==> !(v.phase is Holding) && !(v.phase is Fired),
{
}

/// Saturating a reading keeps it when it fits in a `u64`, caps it at
/// `u64::MAX` otherwise, and never reverses the order of two readings.
pub proof fn lemma_saturation_is_monotone(a: u128, b: u128)
    ensures
        a <= u64::MAX ==> saturated(a) == a,
        a > u64::MAX ==> saturated(a) == u64::MAX,
        a <= b ==> saturated(a) <= saturated(b),
{
}

} // verus!
