//! Running a session's handler for an event.
//!
//! The handler runs on the relay, not on the runtime thread, so that it may send
//! directives and wait for their replies while the runtime thread serves them. For the
//! time the handler runs the relay forwards nothing. A session runs one handler at a
//! time: events that come up meanwhile wait their turn.

use crate::error::Error;
use crate::event::Event;
use crate::host::Host;
use crate::manager::data::{ManagerData, SessionView};
use crate::manager::thread::{relayed, DirectiveThreadMessage};
use crate::task::ServerTask;
use vstd::prelude::*;

verus! {

/// `copy` is a copy of `handler`, or both are missing.
pub open spec fn handler_copied<P: Host>(handler: Option<P::Handler>, copy: Option<P::Handler>) -> bool {
    match handler {
        Some(handler) => copy matches Some(c) && cloned(handler, c),
        None => copy is None,
    }
}

/// `messages` are the two that start a handler: the relay is told to stop forwarding, and
/// then to run the session's handler, as it is now, for `event`.
pub open spec fn announces<P: Host>(
    messages: Seq<DirectiveThreadMessage<P>>,
    session: SessionView<P>,
    event: Event<P>,
) -> bool {
    &&& messages.len() == 2
    &&& messages[0] is Stop
    &&& messages[1] matches DirectiveThreadMessage::RunEvent(id, ev, handler)
    &&& id == session.runtime_id
    &&& ev == event
    &&& handler_copied::<P>(session.event_handler, handler)
}

/// `messages` are those that follow a handler that is done.
///
/// If an event of the session is due, they are the two that start its handler: the relay
/// stays stopped in between. If none is due, the relay is told to stop and then to start
/// again, so that it goes back to forwarding.
pub open spec fn resumes<P: Host>(
    messages: Seq<DirectiveThreadMessage<P>>,
    session: SessionView<P>,
    next: Option<Event<P>>,
) -> bool {
    match next {
        Some(event) => announces(messages, session, event),
        None => messages.len() == 2 && messages[0] is Stop && messages[1] is Start,
    }
}

/// `messages` are what this module hands back to be sent to the relay: nothing, or the
/// messages that start a handler, or those that end one.
pub open spec fn handed_back<P: Host>(messages: Seq<DirectiveThreadMessage<P>>) -> bool {
    ||| messages.len() == 0
    ||| exists|session: SessionView<P>, event: Event<P>| announces(messages, session, event)
    ||| exists|session: SessionView<P>, next: Option<Event<P>>| resumes(messages, session, next)
}

impl<P: Host> SessionView<P> {
    /// The session after `event` came up for it: the event's handler starts if none is
    /// running, else the event joins the queue behind those that already wait.
    pub open spec fn posted(self, event: Event<P>) -> Self {
        if self.waiting {
            SessionView { queued: self.queued.push(event), ..self }
        } else {
            SessionView { waiting: true, closing: event is Close, ..self }
        }
    }

    /// Whether nothing stands in the way of the session's events: while no handler runs,
    /// no event waits and no window is closing.
    pub open spec fn wf(self) -> bool {
        !self.waiting ==> self.queued.len() == 0 && !self.closing
    }

    /// Whether the running handler was told of the closing of the session's last window.
    pub open spec fn closes_last_window(self) -> bool {
        self.closing && self.window_count == 1
    }

    /// The number of live windows once the running handler is done: one less, but not
    /// less than none, if the handler was told of a closing window.
    pub open spec fn count_after_handler(self) -> usize {
        if self.closing && self.window_count > 0 {
            (self.window_count - 1) as usize
        } else {
            self.window_count
        }
    }

    /// The event whose handler starts as soon as the running one is done.
    ///
    /// That is `Quit` if the running handler was told of the closing of the last window:
    /// the count of windows then goes from one to none. A session that has no window to
    /// begin with is not told to quit. Otherwise the event is the one that has waited
    /// longest, if any waits.
    pub open spec fn next_event(self) -> Option<Event<P>> {
        if self.closes_last_window() {
            Some(Event::Quit)
        } else if self.queued.len() > 0 {
            Some(self.queued[0])
        } else {
            None
        }
    }

    /// The session after its running handler is done. A session without a running
    /// handler stays as it is.
    pub open spec fn finished(self) -> Self {
        if !self.waiting {
            self
        } else if self.closes_last_window() {
            SessionView { window_count: 0, closing: false, ..self }
        } else if self.queued.len() > 0 {
            SessionView {
                window_count: self.count_after_handler(),
                closing: self.queued[0] is Close,
                queued: self.queued.drop_first(),
                ..self
            }
        } else {
            SessionView {
                window_count: self.count_after_handler(),
                waiting: false,
                closing: false,
                ..self
            }
        }
    }
}

/// The two messages that start the session's handler for `event`.
fn announce<P: Host>(mdata: &ManagerData<P>, event: Event<P>) -> (messages: Vec<
    DirectiveThreadMessage<P>,
>)
    ensures
        announces(messages@, mdata@, event),
{
    let handler = match &mdata.event_handler {
        Some(handler) => Some(handler.clone()),
        None => None,
    };
    let mut messages = Vec::new();
    // tell the directive processing thread to stop
    messages.push(DirectiveThreadMessage::Stop);
    // tell the directive processing thread to run the event handler
    messages.push(DirectiveThreadMessage::RunEvent(mdata.runtime_id, event, handler));
    messages
}

/// Given an event, run the event handler.
///
/// Hands back what is to be sent to the relay, in this order, for the handler to start.
/// That is nothing while another handler of the session runs: the event then waits.
/// After the messages are sent, the runtime thread serves the directives it is sent,
/// until it is told that the handler is done, and then calls `event_finished`.
pub fn process_event<P: Host>(mdata: &mut ManagerData<P>, event: Event<P>) -> (messages: Vec<
    DirectiveThreadMessage<P>,
>)
    ensures
        final(mdata)@ == old(mdata)@.posted(event),
        old(mdata)@.waiting ==> messages@.len() == 0,
        !old(mdata)@.waiting ==> announces(messages@, old(mdata)@, event),
        handed_back(messages@),
        old(mdata)@.wf() ==> final(mdata)@.wf(),
{
    if mdata.waiting {
        mdata.queued.push(event);
        Vec::new()
    } else {
        let closing = match &event {
            Event::Close(_) => true,
            _ => false,
        };
        let messages = announce(mdata, event);
        mdata.waiting = true;
        mdata.closing = closing;
        messages
    }
}

/// Sends the relay what it is to be told, in order. The sending stops at the first message
/// that the channel does not take: the relay is gone then.
pub fn send_all<P: Host>(
    control: &flume::Sender<DirectiveThreadMessage<P>>,
    messages: Vec<DirectiveThreadMessage<P>>,
) -> (sent: Result<(), Error>)
    ensures
        messages@.len() == 0 ==> sent is Ok,
        sent matches Err(e) ==> e == Error::ChannelClosed,
{
    let mut rest = messages;
    while rest.len() > 0
        invariant
            messages@.len() == 0 ==> rest@.len() == 0,
        decreases rest@.len(),
    {
        let message = rest.remove(0);
        match relayed(control.send(message)) {
            Ok(()) => {},
            Err(e) => { return Err(e); },
        }
    }
    Ok(())
}

/// The directive that the runtime thread is to serve next while a handler runs, given
/// what its wait on the directive queue yielded. There is none when the empty marker
/// came, which tells that the handler is done, and none when the queue is closed.
pub fn drained<P: Host>(received: Result<Option<ServerTask<P>>, flume::RecvError>) -> (next: Option<
    ServerTask<P>,
>)
    ensures
        next == match received {
            Ok(Some(task)) => Some(task),
            _ => None,
        },
{
    match received {
        Ok(Some(srvtask)) => Some(srvtask),
        // Ok(None) tells us we're done with it
        Ok(None) | Err(_) => None,
    }
}

/// Waits, while a handler runs, for the next directive to serve. Hands back nothing once
/// the handler is done or the queue is closed.
pub fn next_directive<P: Host>(queue: &flume::Receiver<Option<ServerTask<P>>>) -> (next: Option<
    ServerTask<P>,
>) {
    drained(queue.recv())
}

/// Takes note that the running handler of the session is done.
///
/// Hands back what is to be sent to the relay, in this order. A window that the handler
/// was told is closing is no longer counted. If that was the session's last window, the
/// handler is started again at once, for `Quit`; else it is started for the event that
/// has waited longest, if one waits. If no event is due, the relay is told to go back
/// to forwarding. Nothing happens to a session whose handler is not running.
pub fn event_finished<P: Host>(mdata: &mut ManagerData<P>) -> (messages: Vec<
    DirectiveThreadMessage<P>,
>)
    ensures
        final(mdata)@ == old(mdata)@.finished(),
        !old(mdata)@.waiting ==> messages@.len() == 0,
        old(mdata)@.waiting ==> resumes(messages@, old(mdata)@, old(mdata)@.next_event()),
        handed_back(messages@),
        old(mdata)@.wf() ==> final(mdata)@.wf(),
{
    if !mdata.waiting {
        return Vec::new();
    }
    let quit = if mdata.closing {
        // is this the last window?
        let last = mdata.window_count == 1;
        // subtract one from the window count
        mdata.window_count = mdata.window_count.saturating_sub(1);
        // if the window count went from one to zero, send a quit event
        last
    } else {
        false
    };
    let next = if quit {
        Some(Event::Quit)
    } else if mdata.queued.len() > 0 {
        Some(mdata.queued.remove(0))
    } else {
        None
    };
    let messages = match next {
        Some(event) => {
            mdata.closing = match &event {
                Event::Close(_) => true,
                _ => false,
            };
            announce(mdata, event)
        },
        None => {
            mdata.waiting = false;
            mdata.closing = false;
            // tell the directive thread that it's okay to start again
            let mut messages = Vec::new();
            messages.push(DirectiveThreadMessage::Stop);
            messages.push(DirectiveThreadMessage::Start);
            messages
        },
    };
    assert(resumes(messages@, old(mdata)@, old(mdata)@.next_event()));
    messages
}

} // verus!
