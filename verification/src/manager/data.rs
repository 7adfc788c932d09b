//! What the runtime thread keeps for each session.

use crate::event::Event;
use crate::host::Host;
use vstd::prelude::*;

verus! {

/// Thread-side data associated with one session.
pub struct ManagerData<P: Host> {
    /// The number the session got when it was registered.
    pub runtime_id: usize,
    /// Who is told of the session's events. While there is none, events are ignored.
    pub event_handler: Option<P::Handler>,
    /// How many windows of the session are alive.
    pub window_count: usize,
    /// Whether the handler is running right now.
    pub waiting: bool,
    /// Whether the handler that is running was sent for the closing of a window.
    pub closing: bool,
    /// The events that came up while the handler was running, oldest first.
    pub queued: Vec<Event<P>>,
}

/// A session as contracts speak of it.
#[verifier::ext_equal]
pub struct SessionView<P: Host> {
    pub runtime_id: usize,
    pub event_handler: Option<P::Handler>,
    pub window_count: usize,
    pub waiting: bool,
    pub closing: bool,
    pub queued: Seq<Event<P>>,
}

impl<P: Host> View for ManagerData<P> {
    type V = SessionView<P>;

    open spec fn view(&self) -> SessionView<P> {
        SessionView {
            runtime_id: self.runtime_id,
            event_handler: self.event_handler,
            window_count: self.window_count,
            waiting: self.waiting,
            closing: self.closing,
            queued: self.queued@,
        }
    }
}

impl<P: Host> SessionView<P> {
    /// A session that was just registered: no handler, no window, nothing going on.
    pub open spec fn fresh(runtime_id: usize) -> Self {
        SessionView {
            runtime_id,
            event_handler: None,
            window_count: 0,
            waiting: false,
            closing: false,
            queued: Seq::empty(),
        }
    }

    /// The session with another handler. Nothing else changes: an event whose handler is
    /// already running keeps the handler it was started with.
    pub open spec fn with_handler(self, handler: P::Handler) -> Self {
        SessionView { event_handler: Some(handler), ..self }
    }

    /// The session after one more window was created for it. The count stops at the
    /// largest number it can hold.
    pub open spec fn window_created(self) -> Self {
        SessionView {
            window_count: if self.window_count < usize::MAX {
                (self.window_count + 1) as usize
            } else {
                self.window_count
            },
            ..self
        }
    }
}

impl<P: Host> ManagerData<P> {
    /// The data of a session that is registered under `runtime_id`.
    pub fn new(runtime_id: usize) -> (data: Self)
        ensures
            data@ == SessionView::<P>::fresh(runtime_id),
            data@.wf(),
    {
        ManagerData {
            runtime_id,
            event_handler: None,
            window_count: 0,
            waiting: false,
            closing: false,
            queued: Vec::new(),
        }
    }

    /// Puts another handler in place and hands back the one that was there.
    pub fn replace_handler(&mut self, handler: P::Handler) -> (previous: Option<P::Handler>)
        ensures
            final(self)@ == old(self)@.with_handler(handler),
            previous == old(self)@.event_handler,
            old(self)@.wf() ==> final(self)@.wf(),
    {
        let mut slot = Some(handler);
        core::mem::swap(&mut self.event_handler, &mut slot);
        slot
    }

    /// Counts a window that was created for the session.
    pub fn window_created(&mut self)
        ensures
            final(self)@ == old(self)@.window_created(),
            old(self)@.wf() ==> final(self)@.wf(),
    {
        if self.window_count < usize::MAX {
            self.window_count = self.window_count + 1;
        }
    }
}

} // verus!
