//! The detector as it runs: the gesture state machine together with the
//! queues its triggers go out on.

use crate::gesture::{CursorReading, GestureState, InputEvent, ReleaseKind, Trigger};
use crate::lines::TriggerSenders;
use vstd::prelude::*;

verus! {

/// What became of one event.
#[derive(Clone, Copy, Debug, PartialEq, Eq, Structural)]
pub enum Outcome {
    /// No trigger was raised.
    Quiet,
    /// The trigger was raised and its queue took it.
    Sent(Trigger),
    /// The trigger was raised, but the worker behind its queue is gone.
    Disconnected(Trigger),
    /// A short click: the cursor has to be read before anything is decided.
    /// The event is to be finished with `Detector::feed_click`.
    NeedsCursor,
}

impl Outcome {
    /// The trigger that was raised, whether or not it was taken.
    pub open spec fn raised(self) -> Option<Trigger> {
        match self {
            Outcome::Sent(t) => Some(t),
            Outcome::Disconnected(t) => Some(t),
            _ => None,
        }
    }

    /// What became of an event that raised `raised`, when the queue answered
    /// `accepted` to the trigger, if there was one.
    pub open spec fn settled(raised: Option<Trigger>, accepted: bool) -> Outcome {
        match raised {
            None => Outcome::Quiet,
            Some(trigger) => if accepted {
                Outcome::Sent(trigger)
            } else {
                Outcome::Disconnected(trigger)
            },
        }
    }

    /// Names the outcome of an event from the trigger it raised and the
    /// queue's answer: quiet where nothing was raised, sent where the queue
    /// took the trigger, disconnected where it did not.
    pub fn of_delivery(raised: Option<Trigger>, accepted: bool) -> (outcome: Outcome)
        ensures
            outcome == Outcome::settled(raised, accepted),
    {
        match raised {
            None => Outcome::Quiet,
            Some(trigger) => {
                if accepted {
                    Outcome::Sent(trigger)
                } else {
                    Outcome::Disconnected(trigger)
                }
            },
        }
    }
}

/// Whether the detector looks at the clock for `event`: for a release of the
/// shortcut key always, for the left button only while the panel is pinned.
pub open spec fn reads_clock(event: InputEvent, pinned: bool) -> bool {
    match event {
        InputEvent::ShortcutKeyRelease => true,
        InputEvent::LeftPress => pinned,
        InputEvent::LeftRelease => pinned,
        _ => false,
    }
}

/// Decides `reads_clock`, so that the caller reads the clock only when the
/// timestamp matters.
pub fn needs_clock(event: InputEvent, pinned: bool) -> (r: bool)
    ensures
        r == reads_clock(event, pinned),
{
    match event {
        InputEvent::ShortcutKeyRelease => true,
        InputEvent::LeftPress => pinned,
        InputEvent::LeftRelease => pinned,
        _ => false,
    }
}

/// Where the clock is not read, the timestamp and the cursor make no
/// difference to what the detector does.
pub proof fn unread_clock_is_irrelevant(
    s: GestureState,
    event: InputEvent,
    pinned: bool,
    now1: u64,
    now2: u64,
    reading1: CursorReading,
    reading2: CursorReading,
)
    requires
        !reads_clock(event, pinned),
    ensures
        s.after(event, pinned, now1, reading1) == s.after(event, pinned, now2, reading2),
{
}

/// The gesture detector with its outgoing queues.
pub struct Detector {
    /// What the detector remembers.
    pub state: GestureState,
    /// Where its triggers go.
    pub lines: TriggerSenders,
}

impl Detector {
    /// A detector that has seen nothing, sending on `lines`.
    pub fn new(lines: TriggerSenders) -> (d: Detector)
        ensures
            d.state == GestureState::initial(),
            d.lines == lines,
    {
        Detector { state: GestureState::new(), lines }
    }

    /// Sends `raised`, if there is one, and says what became of it.
    fn deliver(&self, raised: Option<Trigger>) -> (outcome: Outcome)
        ensures
            outcome.raised() == raised,
            outcome != Outcome::NeedsCursor,
    {
        match raised {
            None => Outcome::of_delivery(None, false),
            Some(trigger) => {
                let accepted = self.lines.raise(trigger);
                Outcome::of_delivery(raised, accepted)
            },
        }
    }

    /// Takes one event. `pinned` is the persistent pin and `now` the time in
    /// milliseconds as the caller read them; `now` is looked at only where
    /// `reads_clock` holds.
    ///
    /// A short click changes nothing and comes back as `NeedsCursor`. Every
    /// other event is carried out in full: the state moves on and the trigger
    /// it raises, if any, is put on its queue.
    pub fn feed(&mut self, event: InputEvent, pinned: bool, now: u64) -> (outcome: Outcome)
        ensures
            final(self).lines == old(self).lines,
            old(self).state.reads_cursor(event, pinned, now) ==> {
                &&& outcome == Outcome::NeedsCursor
                &&& final(self).state == old(self).state
            },
            !old(self).state.reads_cursor(event, pinned, now) ==> {
                &&& outcome != Outcome::NeedsCursor
                &&& (final(self).state, outcome.raised()) == old(self).state.after(
                    event,
                    pinned,
                    now,
                    CursorReading::Unavailable,
                )
            },
    {
        if event == InputEvent::LeftRelease && self.state.on_left_release(pinned, now)
            == ReleaseKind::Click {
            Outcome::NeedsCursor
        } else {
            let raised = self.state.step(event, pinned, now, CursorReading::Unavailable);
            self.deliver(raised)
        }
    }

    /// Finishes a short click that `feed` answered with `NeedsCursor`: `now`
    /// is the timestamp given to `feed`, `reading` what the cursor query gave.
    pub fn feed_click(&mut self, now: u64, reading: CursorReading) -> (outcome: Outcome)
        ensures
            final(self).lines == old(self).lines,
            final(self).state == old(self).state.after_click(now, reading).0,
            outcome != Outcome::NeedsCursor,
            outcome.raised() == if old(self).state.after_click(now, reading).1 {
                Some(Trigger::Selection)
            } else {
                None
            },
    {
        let raised = if self.state.on_click(now, reading) {
            Some(Trigger::Selection)
        } else {
            None
        };
        self.deliver(raised)
    }
}

} // verus!
