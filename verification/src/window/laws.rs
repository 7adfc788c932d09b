//! What holds of a session's events, and of the relay that is sent what is handed back
//! for them.

use super::event::{announces, handed_back, handler_copied, resumes};
use crate::error::Error;
use crate::event::Event;
use crate::host::Host;
use crate::manager::data::SessionView;
use crate::manager::thread::{DirectiveThreadMessage, RelayAction, RelayInput, RelayState};
use vstd::prelude::*;

verus! {

/// The messages that start a handler stop a forwarding relay and have it run a copy of
/// the session's handler for the event. The relay is then still stopped, so that for as
/// long as the handler runs it forwards nothing.
pub proof fn lemma_announced_handler_runs<P: Host>(
    messages: Seq<DirectiveThreadMessage<P>>,
    session: SessionView<P>,
    event: Event<P>,
)
    requires
        announces(messages, session, event),
    ensures
        RelayState::Started.reaction(RelayInput::Control(messages[0])) == Ok::<RelayAction<P>, Error>(
            RelayAction::Idle,
        ),
        RelayState::Started.after(RelayInput::Control(messages[0])) == RelayState::Stopped,
        RelayState::Stopped.reaction(RelayInput::Control(messages[1])) matches Ok(
            RelayAction::Run { session: id, event: ev, handler },
        ) && id == session.runtime_id && ev == event && handler_copied::<P>(
            session.event_handler,
            handler,
        ),
        RelayState::Stopped.after(RelayInput::Control(messages[1])) == RelayState::Stopped,
{
}

/// The messages that follow a handler that is done keep a stopped relay stopped if an
/// event of the session is due, and have it run the handler for that event. If none is
/// due, they have the relay forward again.
pub proof fn lemma_resumed_relay_forwards<P: Host>(
    messages: Seq<DirectiveThreadMessage<P>>,
    session: SessionView<P>,
    next: Option<Event<P>>,
)
    requires
        resumes(messages, session, next),
    ensures
        messages.len() == 2,
        RelayState::Stopped.after(RelayInput::Control(messages[0])) == RelayState::Stopped,
        next is None ==> RelayState::Stopped.after(RelayInput::Control(messages[1]))
            == RelayState::Started,
        next matches Some(event) ==> announces(messages, session, event)
            && RelayState::Stopped.after(RelayInput::Control(messages[1])) == RelayState::Stopped,
{
}

/// The closing of a session's last window has the handler told to quit exactly once.
///
/// When the handler that was told of the closing window is done and the count of
/// windows goes from one to none, the event that is due is `Quit`. The handler that then
/// runs for `Quit` was not told of a closing window: when it is done in turn, nothing is
/// taken off the count, and the event that is due comes from the queue, if any.
pub proof fn lemma_last_window_quits_once<P: Host>(session: SessionView<P>)
    requires
        session.waiting,
        session.closing,
        session.window_count == 1,
    ensures
        session.next_event() == Some(Event::<P>::Quit),
        session.finished().waiting,
        !session.finished().closing,
        session.finished().window_count == 0,
        session.finished().queued == session.queued,
        session.finished().count_after_handler() == 0,
        !session.finished().closes_last_window(),
        session.finished().next_event() == (if session.queued.len() > 0 {
            Some(session.queued[0])
        } else {
            None
        }),
{
}

/// A handler that was not told of the closing of the last window has nobody told to
/// quit: the event that is due when it is done is the one that has waited longest, if
/// any. That is so of a session that is left with a window, and of one that had no
/// window to begin with, whose count stays at none.
pub proof fn lemma_no_quit_without_last_close<P: Host>(session: SessionView<P>)
    requires
        session.waiting,
        !session.closing || session.window_count != 1,
    ensures
        session.next_event() == (if session.queued.len() > 0 {
            Some(session.queued[0])
        } else {
            None
        }),
        !session.closing ==> session.finished().window_count == session.window_count,
        session.closing && session.window_count > 1 ==> session.finished().window_count
            == session.window_count - 1,
        session.window_count == 0 ==> session.finished().window_count == 0,
{
}

/// Events of one session get their handler one at a time and in the order they came up:
/// what comes up while a handler runs is put behind what already waits, and starts no
/// handler.
pub proof fn lemma_events_wait_their_turn<P: Host>(session: SessionView<P>, event: Event<P>)
    requires
        session.waiting,
    ensures
        session.posted(event).queued == session.queued.push(event),
        session.posted(event).waiting,
        session.posted(event).closing == session.closing,
        session.posted(event).window_count == session.window_count,
        session.queued.len() > 0 ==> session.posted(event).next_event() == session.next_event(),
{
}

/// Every message of `batches`, batch after batch.
pub open spec fn joined<P: Host>(batches: Seq<Seq<DirectiveThreadMessage<P>>>) -> Seq<
    DirectiveThreadMessage<P>,
>
    decreases batches.len(),
{
    if batches.len() == 0 {
        Seq::empty()
    } else {
        joined(batches.drop_last()) + batches.last()
    }
}

/// A relay that is sent one run of messages after another deals with them as with one
/// long run.
pub proof fn lemma_relay_takes_runs_in_turn<P: Host>(
    state: RelayState,
    first: Seq<DirectiveThreadMessage<P>>,
    second: Seq<DirectiveThreadMessage<P>>,
)
    ensures
        state.takes(first + second) <==> state.takes(first) && state.after_messages(first).takes(
            second,
        ),
        state.after_messages(first + second) == state.after_messages(first).after_messages(second),
    decreases first.len(),
{
    if first.len() == 0 {
        assert(first + second == second);
    } else {
        let next = state.after(RelayInput::Control(first[0]));
        assert((first + second)[0] == first[0]);
        assert((first + second).drop_first() == first.drop_first() + second);
        lemma_relay_takes_runs_in_turn(next, first.drop_first(), second);
    }
}

/// A relay that has not ended takes whatever is handed back for a session's events, and
/// has not ended after it: it is never sent a handler while it forwards.
pub proof fn lemma_relay_takes_what_is_handed_back<P: Host>(
    state: RelayState,
    messages: Seq<DirectiveThreadMessage<P>>,
)
    requires
        state != RelayState::Exited,
        handed_back(messages),
    ensures
        state.takes(messages),
        state.after_messages(messages) != RelayState::Exited,
{
    reveal_with_fuel(RelayState::takes, 3);
    reveal_with_fuel(RelayState::after_messages, 3);
    if messages.len() == 2 {
        assert(messages.drop_first()[0] == messages[1]);
    }
}

/// However many events come up and however many handlers are done, the relay takes what
/// is handed back for them, batch after batch, and never ends over it: the messages that
/// tell it to run a handler always find it stopped.
pub proof fn lemma_relay_never_faults<P: Host>(
    state: RelayState,
    batches: Seq<Seq<DirectiveThreadMessage<P>>>,
)
    requires
        state != RelayState::Exited,
        forall|i: int| 0 <= i < batches.len() ==> handed_back(#[trigger] batches[i]),
    ensures
        state.takes(joined(batches)),
        state.after_messages(joined(batches)) != RelayState::Exited,
    decreases batches.len(),
{
    if batches.len() > 0 {
        let earlier = batches.drop_last();
        assert forall|i: int| 0 <= i < earlier.len() implies handed_back(#[trigger] earlier[i]) by {
            assert(earlier[i] == batches[i]);
        }
        lemma_relay_never_faults(state, earlier);
        let reached = state.after_messages(joined(earlier));
        assert(handed_back(batches[batches.len() - 1]));
        lemma_relay_takes_what_is_handed_back(reached, batches.last());
        lemma_relay_takes_runs_in_turn(state, joined(earlier), batches.last());
    }
}

} // verus!
