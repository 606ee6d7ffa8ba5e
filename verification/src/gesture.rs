//! The gesture detector: a small state machine over raw key and button events.
//!
//! Every decision is a comparison of millisecond timestamps and screen
//! coordinates. The detector never waits and never fails; the caller reads the
//! clock and, for a short click, the cursor, and hands both in as plain values.

use vstd::prelude::*;

verus! {

/// A second release of the shortcut key strictly within this many milliseconds
/// of the first is a double tap.
pub const DOUBLE_TAP_WINDOW_MS: u64 = 1000;

/// A left button held for at least this many milliseconds is a drag.
pub const DRAG_HOLD_MS: u64 = 500;

/// A second short click strictly within this many milliseconds of the
/// reference click, at the same place, is a double click.
pub const DOUBLE_CLICK_WINDOW_MS: u64 = 500;

/// A raw input event, reduced to what the detector tells apart.
#[derive(Clone, Copy, Debug, PartialEq, Eq, Structural)]
pub enum InputEvent {
    /// The designated shortcut key was released.
    ShortcutKeyRelease,
    /// Any other key was released.
    OtherKeyRelease,
    /// The left mouse button went down.
    LeftPress,
    /// The left mouse button came up.
    LeftRelease,
    /// Anything else: key presses, other buttons, movement, the wheel.
    Other,
}

/// The two signals the detector can raise.
#[derive(Clone, Copy, Debug, PartialEq, Eq, Structural)]
pub enum Trigger {
    /// Open the panel because the shortcut key was tapped twice.
    Shortcut,
    /// Open the panel because text was selected with the mouse.
    Selection,
}

/// What a cursor position query gave.
#[derive(Clone, Copy, Debug, PartialEq, Eq, Structural)]
pub enum CursorReading {
    /// The cursor is at these screen coordinates.
    At { x: i32, y: i32 },
    /// The position could not be obtained.
    Unavailable,
}

/// What a release of the left button amounts to before the cursor is known.
#[derive(Clone, Copy, Debug, PartialEq, Eq, Structural)]
pub enum ReleaseKind {
    /// The panel is not pinned: releases mean nothing.
    Ignored,
    /// The button was held long enough to have selected text.
    Drag,
    /// A short click: whether it completes a double click depends on where
    /// the cursor is.
    Click,
}

/// The detector's memory. A timestamp of zero means "none recorded".
#[derive(Clone, Copy, Debug, PartialEq, Eq, Structural)]
pub struct GestureState {
    /// When the shortcut key was last released without completing a double
    /// tap, or zero.
    pub last_shift_release: u64,
    /// When the left button last went down while the panel was pinned.
    pub last_press: u64,
    /// When the reference click happened.
    pub last_click: u64,
    /// Where the reference click happened.
    pub last_x: i32,
    /// Where the reference click happened.
    pub last_y: i32,
}

/// `now` lies strictly before the end of the window of `span` milliseconds
/// that opened at `since`.
pub open spec fn within(now: u64, since: u64, span: u64) -> bool {
    now < since + span
}

/// Decides `within` without overflowing.
pub fn is_within(now: u64, since: u64, span: u64) -> (r: bool)
    ensures
        r == within(now, since, span),
{
    if since > u64::MAX - span {
        true
    } else {
        now < since + span
    }
}

impl GestureState {
    /// The state at start: nothing recorded.
    pub open spec fn initial() -> GestureState {
        GestureState { last_shift_release: 0, last_press: 0, last_click: 0, last_x: 0, last_y: 0 }
    }

    /// A release of the shortcut key at `now` completes a double tap.
    pub open spec fn double_tap(self, now: u64) -> bool {
        within(now, self.last_shift_release, DOUBLE_TAP_WINDOW_MS)
    }

    /// A release of the left button at `now` ends a drag.
    pub open spec fn drag(self, now: u64) -> bool {
        !within(now, self.last_press, DRAG_HOLD_MS)
    }

    /// A short click at `now` on `(x, y)` completes a double click.
    pub open spec fn double_click(self, now: u64, x: i32, y: i32) -> bool {
        &&& within(now, self.last_click, DOUBLE_CLICK_WINDOW_MS)
        &&& x == self.last_x
        &&& y == self.last_y
    }

    /// The state after a key release, and whether it raised the shortcut
    /// trigger.
    pub open spec fn after_key_release(self, shortcut_key: bool, now: u64) -> (GestureState, bool) {
        if shortcut_key && self.double_tap(now) {
            (GestureState { last_shift_release: 0, ..self }, true)
        } else if shortcut_key {
            (GestureState { last_shift_release: now, ..self }, false)
        } else {
            (GestureState { last_shift_release: 0, ..self }, false)
        }
    }

    /// The state after the left button went down.
    pub open spec fn after_left_press(self, pinned: bool, now: u64) -> GestureState {
        if pinned {
            GestureState { last_press: now, ..self }
        } else {
            self
        }
    }

    /// What a release of the left button amounts to.
    pub open spec fn release_kind(self, pinned: bool, now: u64) -> ReleaseKind {
        if !pinned {
            ReleaseKind::Ignored
        } else if self.drag(now) {
            ReleaseKind::Drag
        } else {
            ReleaseKind::Click
        }
    }

    /// The state after a short click, and whether it raised the selection
    /// trigger.
    pub open spec fn after_click(self, now: u64, reading: CursorReading) -> (GestureState, bool) {
        match reading {
            CursorReading::Unavailable => (self, false),
            CursorReading::At { x, y } => if self.double_click(now, x, y) {
                (self, true)
            } else {
                (GestureState { last_click: now, last_x: x, last_y: y, ..self }, false)
            },
        }
    }

    /// The whole transition: the state after `event`, and the trigger it
    /// raised, if any. `reading` matters for a short click only.
    pub open spec fn after(
        self,
        event: InputEvent,
        pinned: bool,
        now: u64,
        reading: CursorReading,
    ) -> (GestureState, Option<Trigger>) {
        match event {
            InputEvent::ShortcutKeyRelease => {
                let (next, fired) = self.after_key_release(true, now);
                (next, if fired { Some(Trigger::Shortcut) } else { None })
            },
            InputEvent::OtherKeyRelease => (self.after_key_release(false, now).0, None),
            InputEvent::LeftPress => (self.after_left_press(pinned, now), None),
            InputEvent::LeftRelease => match self.release_kind(pinned, now) {
                ReleaseKind::Ignored => (self, None),
                ReleaseKind::Drag => (self, Some(Trigger::Selection)),
                ReleaseKind::Click => {
                    let (next, fired) = self.after_click(now, reading);
                    (next, if fired { Some(Trigger::Selection) } else { None })
                },
            },
            InputEvent::Other => (self, None),
        }
    }

    /// Whether the transition on `event` looks at the cursor at all.
    pub open spec fn reads_cursor(self, event: InputEvent, pinned: bool, now: u64) -> bool {
        event == InputEvent::LeftRelease && self.release_kind(pinned, now) == ReleaseKind::Click
    }

    /// A detector that has seen nothing yet.
    pub fn new() -> (s: GestureState)
        ensures
            s == GestureState::initial(),
    {
        GestureState { last_shift_release: 0, last_press: 0, last_click: 0, last_x: 0, last_y: 0 }
    }

    /// Takes a key release at `now`; `shortcut_key` says whether it was the
    /// designated key. Returns whether the shortcut trigger is raised.
    pub fn on_key_release(&mut self, shortcut_key: bool, now: u64) -> (fired: bool)
        ensures
            (*final(self), fired) == old(self).after_key_release(shortcut_key, now),
    {
        if shortcut_key {
            if is_within(now, self.last_shift_release, DOUBLE_TAP_WINDOW_MS) {
                self.last_shift_release = 0;
                true
            } else {
                self.last_shift_release = now;
                false
            }
        } else {
            self.last_shift_release = 0;
            false
        }
    }

    /// Takes a press of the left button at `now`.
    pub fn on_left_press(&mut self, pinned: bool, now: u64)
        ensures
            *final(self) == old(self).after_left_press(pinned, now),
    {
        if pinned {
            self.last_press = now;
        }
    }

    /// Classifies a release of the left button at `now`. The state is not
    /// touched: a drag raises the selection trigger at once, a click goes on
    /// to `on_click` with a cursor reading.
    pub fn on_left_release(&self, pinned: bool, now: u64) -> (kind: ReleaseKind)
        ensures
            kind == self.release_kind(pinned, now),
    {
        if !pinned {
            ReleaseKind::Ignored
        } else if !is_within(now, self.last_press, DRAG_HOLD_MS) {
            ReleaseKind::Drag
        } else {
            ReleaseKind::Click
        }
    }

    /// Takes a short click at `now` with the cursor where `reading` says.
    /// Returns whether the selection trigger is raised.
    pub fn on_click(&mut self, now: u64, reading: CursorReading) -> (fired: bool)
        ensures
            (*final(self), fired) == old(self).after_click(now, reading),
    {
        match reading {
            CursorReading::Unavailable => false,
            CursorReading::At { x, y } => {
                if is_within(now, self.last_click, DOUBLE_CLICK_WINDOW_MS) && x == self.last_x && y
                    == self.last_y {
                    true
                } else {
                    self.last_click = now;
                    self.last_x = x;
                    self.last_y = y;
                    false
                }
            },
        }
    }

    /// Takes one event with everything it could need already at hand.
    /// Returns the trigger it raises, if any.
    pub fn step(&mut self, event: InputEvent, pinned: bool, now: u64, reading: CursorReading) -> (raised:
        Option<Trigger>)
        ensures
            (*final(self), raised) == old(self).after(event, pinned, now, reading),
    {
        match event {
            InputEvent::ShortcutKeyRelease => {
                if self.on_key_release(true, now) {
                    Some(Trigger::Shortcut)
                } else {
                    None
                }
            },
            InputEvent::OtherKeyRelease => {
                self.on_key_release(false, now);
                None
            },
            InputEvent::LeftPress => {
                self.on_left_press(pinned, now);
                None
            },
            InputEvent::LeftRelease => match self.on_left_release(pinned, now) {
                ReleaseKind::Ignored => None,
                ReleaseKind::Drag => Some(Trigger::Selection),
                ReleaseKind::Click => {
                    if self.on_click(now, reading) {
                        Some(Trigger::Selection)
                    } else {
                        None
                    }
                },
            },
            InputEvent::Other => None,
        }
    }
}

/// One key release: whether it was the shortcut key, and when.
pub struct KeyRelease {
    pub shortcut_key: bool,
    pub at: u64,
}

/// The detector's state just before the `i`-th of `keys`, when it started in
/// `start` and took the releases before it in order.
pub open spec fn before_key(start: GestureState, keys: Seq<KeyRelease>, i: int) -> GestureState
    decreases i,
{
    if i <= 0 {
        start
    } else {
        before_key(start, keys, i - 1).after_key_release(
            keys[i - 1].shortcut_key,
            keys[i - 1].at,
        ).0
    }
}

/// The `i`-th of `keys` is the second tap of a double tap: it and the release
/// just before it are both of the shortcut key, less than the window apart,
/// and the one before it was not itself the second tap of a pair.
pub open spec fn completes_double_tap(keys: Seq<KeyRelease>, i: int) -> bool
    decreases i,
{
    &&& 0 < i < keys.len()
    &&& keys[i].shortcut_key
    &&& keys[i - 1].shortcut_key
    &&& !completes_double_tap(keys, i - 1)
    &&& keys[i].at < keys[i - 1].at + DOUBLE_TAP_WINDOW_MS
}

/// What the detector remembers of the shortcut key before the `i`-th of
/// `keys`: the time of the release just before, where that was the first tap
/// of a pair still open, and zero otherwise.
proof fn remembered_tap(start: GestureState, keys: Seq<KeyRelease>, i: int)
    requires
        0 <= i <= keys.len(),
        start.last_shift_release == 0,
        forall|j: int| 0 <= j < keys.len() ==> (#[trigger] keys[j]).at >= DOUBLE_TAP_WINDOW_MS,
    ensures
        before_key(start, keys, i).last_shift_release == (if i > 0 && keys[i - 1].shortcut_key
            && !completes_double_tap(keys, i - 1) {
            keys[i - 1].at
        } else {
            0
        }),
    decreases i,
{
    if i > 0 {
        remembered_tap(start, keys, i - 1);
        if i > 1 {
            assert(keys[i - 2].at >= DOUBLE_TAP_WINDOW_MS);
        }
        assert(keys[i - 1].at >= DOUBLE_TAP_WINDOW_MS);
    }
}

/// Over any run of key releases, the shortcut trigger is raised by exactly
/// those releases that are the second tap of a double tap: two releases of the
/// shortcut key in a row, less than `DOUBLE_TAP_WINDOW_MS` apart. A gap of
/// exactly the window raises nothing, and neither does a pair with another
/// key's release in between.
///
/// Zero stands for "no release recorded", so the timestamps are taken to be
/// at least the window: earlier ones cannot be told from a first tap.
pub proof fn double_tap_raises_shortcut(start: GestureState, keys: Seq<KeyRelease>, i: int)
    requires
        0 <= i < keys.len(),
        start.last_shift_release == 0,
        forall|j: int| 0 <= j < keys.len() ==> (#[trigger] keys[j]).at >= DOUBLE_TAP_WINDOW_MS,
    ensures
        before_key(start, keys, i).after_key_release(keys[i].shortcut_key, keys[i].at).1
            == completes_double_tap(keys, i),
        before_key(start, keys, i).after(
            if keys[i].shortcut_key {
                InputEvent::ShortcutKeyRelease
            } else {
                InputEvent::OtherKeyRelease
            },
            false,
            keys[i].at,
            CursorReading::Unavailable,
        ).1 == (if completes_double_tap(keys, i) {
            Some(Trigger::Shortcut)
        } else {
            None
        }),
{
    remembered_tap(start, keys, i);
    assert(keys[i].at >= DOUBLE_TAP_WINDOW_MS);
    if i > 0 {
        assert(keys[i - 1].at >= DOUBLE_TAP_WINDOW_MS);
    }
}

/// Events that are not key releases leave the detector's memory of the
/// shortcut key alone, so they do not come between two taps.
pub proof fn pointer_events_keep_taps(
    s: GestureState,
    event: InputEvent,
    pinned: bool,
    now: u64,
    reading: CursorReading,
)
    requires
        event != InputEvent::ShortcutKeyRelease,
        event != InputEvent::OtherKeyRelease,
    ensures
        s.after(event, pinned, now, reading).0.last_shift_release == s.last_shift_release,
        s.after(event, pinned, now, reading).1 != Some(Trigger::Shortcut),
{
}

/// While the panel is pinned, a release of the left button at least
/// `DRAG_HOLD_MS` after its press raises the selection trigger, wherever the
/// cursor is and whatever click was remembered, and changes nothing else.
pub proof fn held_release_raises_selection(
    s: GestureState,
    pressed_at: u64,
    released_at: u64,
    at_press: CursorReading,
    at_release: CursorReading,
)
    requires
        released_at >= pressed_at + DRAG_HOLD_MS,
    ensures
        ({
            let held = s.after(InputEvent::LeftPress, true, pressed_at, at_press).0;
            held.after(InputEvent::LeftRelease, true, released_at, at_release) == (
                held,
                Some(Trigger::Selection),
            )
        }),
{
}

/// While the panel is pinned, of two short clicks in a row the second raises
/// the selection trigger exactly if it is on the same spot as the first and
/// less than `DOUBLE_CLICK_WINDOW_MS` after it; otherwise it raises nothing
/// and becomes the click that the next one is measured against.
///
/// The first click is taken not to complete a double click itself: one that
/// does leaves the remembered click as it was.
pub proof fn second_click_raises_selection(
    s: GestureState,
    first_press: u64,
    first_release: u64,
    x1: i32,
    y1: i32,
    second_press: u64,
    second_release: u64,
    x2: i32,
    y2: i32,
)
    requires
        within(first_release, first_press, DRAG_HOLD_MS),
        within(second_release, second_press, DRAG_HOLD_MS),
        !s.double_click(first_release, x1, y1),
    ensures
        ({
            let a = s.after(InputEvent::LeftPress, true, first_press, CursorReading::Unavailable).0;
            let (b, first) = a.after(
                InputEvent::LeftRelease,
                true,
                first_release,
                CursorReading::At { x: x1, y: y1 },
            );
            let c = b.after(InputEvent::LeftPress, true, second_press, CursorReading::Unavailable).0;
            let (d, second) = c.after(
                InputEvent::LeftRelease,
                true,
                second_release,
                CursorReading::At { x: x2, y: y2 },
            );
            let same_spot_in_time = second_release < first_release + DOUBLE_CLICK_WINDOW_MS && x2
                == x1 && y2 == y1;
            &&& first.is_none()
            &&& (b.last_click, b.last_x, b.last_y) == (first_release, x1, y1)
            &&& same_spot_in_time ==> second == Some(Trigger::Selection) && d == c
            &&& !same_spot_in_time ==> second.is_none() && d == (GestureState {
                last_click: second_release,
                last_x: x2,
                last_y: y2,
                ..c
            })
        }),
{
}

} // verus!
