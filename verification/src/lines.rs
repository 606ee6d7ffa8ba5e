//! The two single-slot hand-off queues that carry triggers from the detector
//! to the workers, one per kind of trigger.

use crate::gesture::Trigger;
use crossbeam_channel::{Receiver, Sender};
use vstd::prelude::*;

verus! {

/// Each queue holds at most this many triggers that no worker has taken yet.
pub const LINE_SLOTS: usize = 1;

/// The sending half of a channel. Opaque: nothing is known of what is inside.
#[verifier::external_type_specification]
#[verifier::external_body]
#[verifier::reject_recursive_types(T)]
pub struct ExSender<T>(Sender<T>);

/// The receiving half of a channel. Opaque: nothing is known of what is inside.
#[verifier::external_type_specification]
#[verifier::external_body]
#[verifier::reject_recursive_types(T)]
pub struct ExReceiver<T>(Receiver<T>);

/// The capacity that the channel behind `sender` was made with: what
/// `Sender::capacity` returns for it.
pub uninterp spec fn slots(sender: Sender<()>) -> Option<usize>;

/// `crossbeam_channel::bounded`, for channels of unit messages. Believed, not
/// proved: the sender returned belongs to a channel of capacity `cap`. The
/// bound on `cap` keeps away from the sizes at which the constructor gives up.
#[verifier::external_body]
fn bounded_line(cap: usize) -> (ends: (Sender<()>, Receiver<()>))
    requires
        cap <= 1024,
    ensures
        slots(ends.0) == Some(cap),
{
    crossbeam_channel::bounded(cap)
}

/// `Sender::send` of one unit message. It waits while the channel is full and
/// a receiver is alive; it returns `false` where every receiver is gone.
/// Nothing is claimed of the outcome: it depends on what other threads do.
#[verifier::external_body]
fn send_unit(sender: &Sender<()>) -> (accepted: bool) {
    sender.send(()).is_ok()
}

/// The detector's ends of the two queues.
pub struct TriggerSenders {
    /// Carries shortcut triggers.
    pub shortcut: Sender<()>,
    /// Carries selection triggers.
    pub selection: Sender<()>,
}

/// The workers' ends of the two queues.
pub struct TriggerReceivers {
    /// Feeds the shortcut worker.
    pub shortcut: Receiver<()>,
    /// Feeds the selection worker.
    pub selection: Receiver<()>,
}

impl TriggerSenders {
    /// Both queues have exactly one slot.
    pub open spec fn single_slot(self) -> bool {
        &&& slots(self.shortcut) == Some(LINE_SLOTS)
        &&& slots(self.selection) == Some(LINE_SLOTS)
    }

    /// Puts `trigger` on the queue of its kind, waiting while the slot is
    /// taken. Returns `false` where the worker on the other end is gone.
    pub(crate) fn raise(&self, trigger: Trigger) -> (accepted: bool) {
        send_unit(self.line(trigger))
    }

    /// The queue that carries triggers of the kind of `trigger`.
    pub open spec fn line_of(self, trigger: Trigger) -> Sender<()> {
        match trigger {
            Trigger::Shortcut => self.shortcut,
            Trigger::Selection => self.selection,
        }
    }

    /// Picks the queue that `trigger` goes out on.
    pub fn line(&self, trigger: Trigger) -> (sender: &Sender<()>)
        ensures
            *sender == self.line_of(trigger),
    {
        match trigger {
            Trigger::Shortcut => &self.shortcut,
            Trigger::Selection => &self.selection,
        }
    }
}

/// Opens the two queues, each with a single slot.
pub fn open_lines() -> (ends: (TriggerSenders, TriggerReceivers))
    ensures
        ends.0.single_slot(),
{
    let (shortcut_in, shortcut_out) = bounded_line(LINE_SLOTS);
    let (selection_in, selection_out) = bounded_line(LINE_SLOTS);
    (
        TriggerSenders { shortcut: shortcut_in, selection: selection_in },
        TriggerReceivers { shortcut: shortcut_out, selection: selection_out },
    )
}

} // verus!
