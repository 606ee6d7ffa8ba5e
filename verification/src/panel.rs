//! The panel's lifecycle: two pins, the content last shown by selection, and
//! the decisions of the trigger workers, the move latch and the idle poller.
//!
//! Nothing here touches a window. Each function takes what the caller
//! observed and returns what the caller is to ask of the window manager.

use vstd::prelude::*;

verus! {

/// The idle poller looks at the panel once per this many milliseconds.
pub const POLL_INTERVAL_MS: u64 = 100;

/// A request to resolve the text to act on.
#[derive(Clone, Copy, Debug, PartialEq, Eq, Structural)]
pub struct ResolveRequest {
    /// Whether the resolver may fall back to the system clipboard.
    pub allow_clipboard_fallback: bool,
}

/// What the idle poller asks of the window manager.
#[derive(Clone, Copy, Debug, PartialEq, Eq, Structural)]
pub enum WindowRequest {
    /// Hide the panel.
    Hide,
    /// Tell the panel's content to clear its results.
    Clear,
}

/// The state shared by the workers, the latch and the poller.
///
/// The transient pin is set when the panel opens by shortcut and nothing in
/// this module ever clears it: while it is set the poller does not hide the
/// panel. Whoever embeds the panel decides when to release it, by writing the
/// field.
#[derive(Debug)]
pub struct PanelState {
    /// The user keeps the panel open: set when the panel is moved while it
    /// has focus.
    pub persistent_pin: bool,
    /// The panel was just opened by shortcut.
    pub transient_pin: bool,
    /// The content last shown through the selection path.
    pub last_content: String,
}

/// `PanelState` as a mathematical value.
pub struct PanelView {
    pub persistent_pin: bool,
    pub transient_pin: bool,
    pub last_content: Seq<char>,
}

impl View for PanelState {
    type V = PanelView;

    open spec fn view(&self) -> PanelView {
        PanelView {
            persistent_pin: self.persistent_pin,
            transient_pin: self.transient_pin,
            last_content: self.last_content@,
        }
    }
}

/// A focus query that failed counts as "not focused".
pub open spec fn has_focus(focus: Option<bool>) -> bool {
    focus == Some(true)
}

impl PanelView {
    /// The state at start: no pin, nothing shown.
    pub open spec fn initial() -> PanelView {
        PanelView { persistent_pin: false, transient_pin: false, last_content: Seq::empty() }
    }

    /// What the shortcut worker asks for when a trigger arrives: content with
    /// clipboard fallback, unless the panel is pinned open.
    pub open spec fn shortcut_request(self) -> Option<ResolveRequest> {
        if self.persistent_pin {
            None
        } else {
            Some(ResolveRequest { allow_clipboard_fallback: true })
        }
    }

    /// The state once the shortcut worker has its content.
    pub open spec fn after_shortcut_content(self) -> PanelView {
        PanelView { transient_pin: true, ..self }
    }

    /// What the selection worker asks for when a trigger arrives: content
    /// without fallback, and only while the panel is pinned open.
    pub open spec fn selection_request(self) -> Option<ResolveRequest> {
        if self.persistent_pin {
            Some(ResolveRequest { allow_clipboard_fallback: false })
        } else {
            None
        }
    }

    /// The state once the selection worker has resolved `content`, and the
    /// content to show, if any.
    pub open spec fn after_selection_content(self, content: Seq<char>) -> (
        PanelView,
        Option<Seq<char>>,
    ) {
        if content == self.last_content {
            (self, None)
        } else {
            (PanelView { last_content: content, ..self }, Some(content))
        }
    }

    /// The state after the panel was moved.
    pub open spec fn after_moved(self, focus: Option<bool>) -> PanelView {
        if has_focus(focus) {
            PanelView { persistent_pin: true, ..self }
        } else {
            self
        }
    }

    /// The poller may hide the panel: no pin holds it and it has no focus.
    pub open spec fn idle(self, focus: Option<bool>) -> bool {
        !self.transient_pin && !self.persistent_pin && !has_focus(focus)
    }

    /// The state after one tick of the poller, and what it asks of the
    /// window manager, in order.
    pub open spec fn after_tick(self, focus: Option<bool>) -> (PanelView, Seq<WindowRequest>) {
        if self.idle(focus) {
            (
                PanelView { persistent_pin: false, ..self },
                seq![WindowRequest::Hide, WindowRequest::Clear],
            )
        } else {
            (self, Seq::empty())
        }
    }
}

impl PanelState {
    /// The state at start.
    pub fn new() -> (s: PanelState)
        ensures
            s@ == PanelView::initial(),
    {
        PanelState { persistent_pin: false, transient_pin: false, last_content: String::new() }
    }

    /// A shortcut trigger arrived. Returns the resolve request to carry out,
    /// or `None` where the trigger is dropped.
    pub fn on_shortcut_trigger(&self) -> (request: Option<ResolveRequest>)
        ensures
            request == self@.shortcut_request(),
    {
        if self.persistent_pin {
            None
        } else {
            Some(ResolveRequest { allow_clipboard_fallback: true })
        }
    }

    /// The shortcut worker resolved `content`. Sets the transient pin and
    /// returns the content to show.
    pub fn on_shortcut_content(&mut self, content: String) -> (show: String)
        ensures
            final(self)@ == old(self)@.after_shortcut_content(),
            show@ == content@,
    {
        self.transient_pin = true;
        content
    }

    /// A selection trigger arrived. Returns the resolve request to carry out,
    /// or `None` where the trigger is dropped.
    pub fn on_selection_trigger(&self) -> (request: Option<ResolveRequest>)
        ensures
            request == self@.selection_request(),
    {
        if self.persistent_pin {
            Some(ResolveRequest { allow_clipboard_fallback: false })
        } else {
            None
        }
    }

    /// The selection worker resolved `content`. Content equal to what was
    /// shown last is discarded; anything else is remembered and returned to be
    /// shown.
    pub fn on_selection_content(&mut self, content: String) -> (show: Option<String>)
        ensures
            final(self)@ == old(self)@.after_selection_content(content@).0,
            show.is_some() == old(self)@.after_selection_content(content@).1.is_some(),
            show.is_some() ==> show.unwrap()@ == content@,
    {
        if content == self.last_content {
            None
        } else {
            self.last_content = content.clone();
            Some(content)
        }
    }

    /// The panel was moved; `focus` is what the focus query gave, `None`
    /// where it failed.
    pub fn on_moved(&mut self, focus: Option<bool>)
        ensures
            final(self)@ == old(self)@.after_moved(focus),
    {
        if focus == Some(true) {
            self.persistent_pin = true;
        }
    }

    /// One tick of the idle poller; `focus` is what the focus query gave,
    /// `None` where it failed. Returns the requests to make, in order.
    pub fn on_tick(&mut self, focus: Option<bool>) -> (requests: Vec<WindowRequest>)
        ensures
            final(self)@ == old(self)@.after_tick(focus).0,
            requests@ == old(self)@.after_tick(focus).1,
    {
        if !self.transient_pin && !self.persistent_pin && focus != Some(true) {
            self.persistent_pin = false;
            vec![WindowRequest::Hide, WindowRequest::Clear]
        } else {
            Vec::new()
        }
    }
}

/// The same selection content delivered twice in a row is shown at most once:
/// whatever the first delivery did, the second asks for nothing and changes
/// nothing.
pub proof fn repeated_selection_is_shown_once(v: PanelView, content: Seq<char>)
    ensures
        ({
            let (once, _) = v.after_selection_content(content);
            once.after_selection_content(content) == (once, None::<Seq<char>>)
        }),
{
}

/// Selection content is shown exactly when it differs from what the
/// selection path showed last, and is then what is remembered.
pub proof fn new_selection_is_shown(v: PanelView, content: Seq<char>)
    ensures
        v.after_selection_content(content).1.is_some() <==> content != v.last_content,
        v.after_selection_content(content).0.last_content == content,
        v.after_selection_content(content).0.persistent_pin == v.persistent_pin,
        v.after_selection_content(content).0.transient_pin == v.transient_pin,
{
}

/// With neither pin set and no focus, one tick asks for exactly one hide
/// followed by exactly one clear, and leaves both pins unset. In every other
/// case a tick asks for nothing and changes nothing.
pub proof fn idle_tick_hides_once(v: PanelView, focus: Option<bool>)
    ensures
        (!v.persistent_pin && !v.transient_pin && !has_focus(focus)) ==> {
            let (next, requests) = v.after_tick(focus);
            &&& requests.len() == 2
            &&& requests[0] == WindowRequest::Hide
            &&& requests[1] == WindowRequest::Clear
            &&& next == v
        },
        (v.persistent_pin || v.transient_pin || has_focus(focus)) ==> v.after_tick(focus) == (
            v,
            Seq::<WindowRequest>::empty(),
        ),
{
}

/// Once the panel has opened by shortcut, no tick hides it: the transient pin
/// outlasts every tick, every move and every delivery of content.
pub proof fn transient_pin_outlasts_ticks(v: PanelView, focus: Option<bool>, content: Seq<char>)
    requires
        v.transient_pin,
    ensures
        v.after_tick(focus) == (v, Seq::<WindowRequest>::empty()),
        v.after_moved(focus).transient_pin,
        v.after_selection_content(content).0.transient_pin,
        v.after_shortcut_content().transient_pin,
{
}

/// Only a move of the focused panel sets the persistent pin, and nothing but
/// an idle tick, which finds it unset, writes it otherwise.
pub proof fn persistent_pin_is_latched(v: PanelView, focus: Option<bool>, content: Seq<char>)
    ensures
        v.after_moved(focus).persistent_pin == (v.persistent_pin || has_focus(focus)),
        v.after_tick(focus).0.persistent_pin == v.persistent_pin,
        v.after_shortcut_content().persistent_pin == v.persistent_pin,
        v.after_selection_content(content).0.persistent_pin == v.persistent_pin,
{
}

} // verus!
