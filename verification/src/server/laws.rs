//! What holds of a controller whatever happens to it.

use super::ControllerView;
use crate::directive::{Processed, Request, Submission};
use crate::error::Error;
use crate::event::Event;
use crate::host::Host;
use crate::manager::data::SessionView;
use crate::manager::thread::{DirectiveThreadMessage, RelayState};
use crate::window::event::{announces, resumes};
use crate::window::laws::{joined, lemma_relay_takes_runs_in_turn};
use vstd::prelude::*;

verus! {

/// One thing that happens to a controller and may change it.
pub enum Occurrence<P: Host> {
    /// `register`, or a `RegisterManager` directive.
    Register,
    /// A `Quit` directive.
    Quit,
    /// `replace_handler` with this session and handler.
    ReplaceHandler(usize, P::Handler),
    /// `settle` for this session, with this request and this answer of the backend.
    Settle(usize, Request<P>, Result<usize, Error>),
    /// `dispatch_event` with this session and event.
    Dispatch(usize, Event<P>),
    /// `handler_done`.
    HandlerDone,
}

impl<P: Host> ControllerView<P> {
    /// The controller after `occurrence`. What is meant for a session that does not exist
    /// changes nothing.
    pub open spec fn after(self, occurrence: Occurrence<P>) -> Self {
        match occurrence {
            Occurrence::Register => self.registered(),
            Occurrence::Quit => self.halted(),
            Occurrence::ReplaceHandler(manager_id, handler) => match self.slot_of(manager_id) {
                Some(i) => self.with_session(i, self.sessions[i].with_handler(handler)),
                None => self,
            },
            Occurrence::Settle(manager_id, request, outcome) => match self.slot_of(manager_id) {
                Some(i) => self.settled(i, request, outcome),
                None => self,
            },
            Occurrence::Dispatch(manager_id, event) => match self.slot_of(manager_id) {
                Some(i) => self.posted(i, event),
                None => self,
            },
            Occurrence::HandlerDone => self.handler_done(),
        }
    }

    /// Whether `messages` are what the controller hands back for the relay when
    /// `occurrence` happens to it: the two messages that start a handler when an event
    /// comes up for a session whose handler is not running, what follows a handler that
    /// is done, and nothing else.
    pub open spec fn tells(
        self,
        occurrence: Occurrence<P>,
        messages: Seq<DirectiveThreadMessage<P>>,
    ) -> bool {
        match occurrence {
            Occurrence::Settle(manager_id, request, outcome) => match (
                self.slot_of(manager_id),
                request.closed(outcome),
            ) {
                (Some(i), Some(window)) if !self.sessions[i].waiting => announces(
                    messages,
                    self.sessions[i],
                    Event::Close(window),
                ),
                _ => messages.len() == 0,
            },
            Occurrence::Dispatch(manager_id, event) => match self.slot_of(manager_id) {
                Some(i) if !self.sessions[i].waiting => announces(messages, self.sessions[i], event),
                _ => messages.len() == 0,
            },
            Occurrence::HandlerDone => self.resumed_by(messages),
            _ => messages.len() == 0,
        }
    }

    /// The controller after everything in `history` happened to it, in order.
    pub open spec fn after_all(self, history: Seq<Occurrence<P>>) -> Self
        decreases history.len(),
    {
        if history.len() == 0 {
            self
        } else {
            self.after_all(history.drop_last()).after(history.last())
        }
    }

    /// Whether no more sessions can be registered because their numbers ran out.
    pub open spec fn full(self) -> bool {
        self.sessions.len() >= usize::MAX
    }

    /// Whether the numbers never run out while `history` happens to the controller.
    pub open spec fn has_room_for(self, history: Seq<Occurrence<P>>) -> bool {
        forall|n: int|
            0 <= n < history.len() && (#[trigger] history[n]) is Register ==> !self.after_all(
                history.subrange(0, n),
            ).full()
    }

    /// Sessions being numbered in order, there is a session under a number if and only
    /// if the number is smaller than the number of sessions.
    pub proof fn lemma_has_session(self, manager_id: usize)
        requires
            self.wf(),
        ensures
            self.has_session(manager_id) <==> manager_id < self.sessions.len(),
    {
        if manager_id < self.sessions.len() {
            assert(self.sessions[manager_id as int].runtime_id == manager_id);
        }
    }

    /// Nothing that happens to a controller removes a session, renumbers one, or starts a
    /// stopped loop again; and only registering adds a session.
    pub proof fn lemma_after_keeps(self, occurrence: Occurrence<P>)
        requires
            self.wf(),
            occurrence is Register ==> !self.full(),
        ensures
            self.after(occurrence).wf(),
            self.after(occurrence).sessions.len() >= self.sessions.len(),
            occurrence is Register <==> self.after(occurrence).sessions.len() > self.sessions.len(),
            self.stop_loop ==> self.after(occurrence).stop_loop,
    {
        match occurrence {
            Occurrence::Register => {
                self.lemma_registered_wf();
            },
            Occurrence::Quit => {},
            Occurrence::ReplaceHandler(manager_id, handler) => {
                if let Some(i) = self.slot_of(manager_id) {
                    self.lemma_with_session_wf(i, self.sessions[i].with_handler(handler));
                }
            },
            Occurrence::Settle(manager_id, request, outcome) => {
                if let Some(i) = self.slot_of(manager_id) {
                    self.lemma_settled_wf(i, request, outcome);
                }
            },
            Occurrence::Dispatch(manager_id, event) => {
                if let Some(i) = self.slot_of(manager_id) {
                    self.lemma_posted_wf(i, event);
                }
            },
            Occurrence::HandlerDone => {
                self.lemma_handler_done_wf();
            },
        }
    }

    /// Whatever happens to a controller, and however much of it, no session is removed
    /// and the controller stays in order.
    pub proof fn lemma_after_all_keeps(self, history: Seq<Occurrence<P>>)
        requires
            self.wf(),
            self.has_room_for(history),
        ensures
            self.after_all(history).wf(),
            self.after_all(history).sessions.len() >= self.sessions.len(),
        decreases history.len(),
    {
        if history.len() > 0 {
            let earlier = history.drop_last();
            assert forall|n: int| 0 <= n < earlier.len() && (#[trigger] earlier[n]) is Register implies !self.after_all(
                earlier.subrange(0, n),
            ).full() by {
                assert(earlier[n] == history[n]);
                assert(earlier.subrange(0, n) == history.subrange(0, n));
            }
            self.lemma_after_all_keeps(earlier);
            let last = history.len() - 1;
            assert(history.subrange(0, last) == earlier);
            assert(history[last] == history.last());
            self.after_all(earlier).lemma_after_keeps(history.last());
        }
    }

    /// The relay is stopped exactly while a handler is in flight.
    ///
    /// A relay that is stopped if and only if a handler is in flight takes what the
    /// controller hands back for whatever happens next, and is again stopped if and only
    /// if a handler is in flight afterwards. So the relay never finds a handler sent to
    /// it while it forwards, and never reads the directive queue while a handler runs.
    pub proof fn lemma_relay_stopped_while_in_flight(
        self,
        occurrence: Occurrence<P>,
        messages: Seq<DirectiveThreadMessage<P>>,
        relay: RelayState,
    )
        requires
            self.wf(),
            self.tells(occurrence, messages),
            relay != RelayState::Exited,
            relay == RelayState::Stopped <==> self.in_flight.len() > 0,
        ensures
            relay.takes(messages),
            relay.after_messages(messages) != RelayState::Exited,
            relay.after_messages(messages) == RelayState::Stopped <==> self.after(
                occurrence,
            ).in_flight.len() > 0,
    {
        reveal_with_fuel(RelayState::takes, 3);
        reveal_with_fuel(RelayState::after_messages, 3);
        if messages.len() == 2 {
            assert(messages.drop_first()[0] == messages[1]);
        }
        match occurrence {
            Occurrence::Settle(manager_id, request, outcome) => {
                if let Some(i) = self.slot_of(manager_id) {
                    if self.sessions[i].waiting {
                        assert(self.in_flight.contains(i as usize));
                    }
                }
            },
            Occurrence::Dispatch(manager_id, event) => {
                if let Some(i) = self.slot_of(manager_id) {
                    if self.sessions[i].waiting {
                        assert(self.in_flight.contains(i as usize));
                    }
                }
            },
            Occurrence::HandlerDone => {
                if self.in_flight.len() > 0 {
                    assert(self.sessions[self.in_flight[0] as int].waiting);
                }
            },
            _ => {},
        }
    }

    /// Whether `batches` are what the controller hands back for the relay, one batch for
    /// each thing in `history` that happens to it, in order.
    pub open spec fn tells_all(
        self,
        history: Seq<Occurrence<P>>,
        batches: Seq<Seq<DirectiveThreadMessage<P>>>,
    ) -> bool {
        &&& batches.len() == history.len()
        &&& forall|n: int|
            0 <= n < history.len() ==> self.after_all(history.subrange(0, n)).tells(
                #[trigger] history[n],
                batches[n],
            )
    }

    /// Whatever happens to a controller that starts out with no handler in flight, a
    /// relay that starts out forwarding takes everything it is sent, and is stopped at
    /// the end if and only if a handler is in flight then.
    pub proof fn lemma_relay_follows_controller(
        self,
        history: Seq<Occurrence<P>>,
        batches: Seq<Seq<DirectiveThreadMessage<P>>>,
    )
        requires
            self.wf(),
            self.in_flight.len() == 0,
            self.has_room_for(history),
            self.tells_all(history, batches),
        ensures
            RelayState::Started.takes(joined(batches)),
            RelayState::Started.after_messages(joined(batches)) != RelayState::Exited,
            RelayState::Started.after_messages(joined(batches)) == RelayState::Stopped
                <==> self.after_all(history).in_flight.len() > 0,
        decreases history.len(),
    {
        if history.len() == 0 {
            assert(joined(batches) == Seq::<DirectiveThreadMessage<P>>::empty());
        } else {
            let last = history.len() - 1;
            let earlier = history.drop_last();
            let earlier_batches = batches.drop_last();
            assert forall|n: int| 0 <= n < earlier.len() && (#[trigger] earlier[n]) is Register implies !self.after_all(
                earlier.subrange(0, n),
            ).full() by {
                assert(earlier[n] == history[n]);
                assert(earlier.subrange(0, n) == history.subrange(0, n));
            }
            assert forall|n: int| 0 <= n < earlier.len() implies self.after_all(
                earlier.subrange(0, n),
            ).tells(#[trigger] earlier[n], earlier_batches[n]) by {
                assert(earlier[n] == history[n]);
                assert(earlier_batches[n] == batches[n]);
                assert(earlier.subrange(0, n) == history.subrange(0, n));
            }
            self.lemma_relay_follows_controller(earlier, earlier_batches);
            self.lemma_after_all_keeps(earlier);
            let before = self.after_all(earlier);
            let relay = RelayState::Started.after_messages(joined(earlier_batches));
            assert(history.subrange(0, last) == earlier);
            assert(history[last] == history.last());
            assert(before.tells(history[last], batches[last]));
            before.lemma_relay_stopped_while_in_flight(history.last(), batches.last(), relay);
            lemma_relay_takes_runs_in_turn(
                RelayState::Started,
                joined(earlier_batches),
                batches.last(),
            );
        }
    }

    /// Registering two sessions, one after the other, gives the second a larger number
    /// than the first, whatever happens in between and whatever becomes of the first
    /// session's windows. No number is given twice.
    pub proof fn lemma_ids_increase(self, between: Seq<Occurrence<P>>)
        requires
            self.wf(),
            !self.full(),
            self.registered().has_room_for(between),
            !self.registered().after_all(between).full(),
        ensures
            self.registered().after_all(between).sessions.len() > self.sessions.len(),
            !self.has_session(self.sessions.len() as usize),
            self.registered().after_all(between).has_session(self.sessions.len() as usize),
            self.registered().after_all(between).registered().sessions.last().runtime_id
                > self.registered().sessions.last().runtime_id,
    {
        self.lemma_registered_wf();
        let first = self.registered();
        first.lemma_after_all_keeps(between);
        let later = first.after_all(between);
        self.lemma_has_session(self.sessions.len() as usize);
        later.lemma_has_session(self.sessions.len() as usize);
        assert(first.sessions.last().runtime_id == self.sessions.len());
        assert(later.registered().sessions.last().runtime_id == later.sessions.len());
    }

    /// A directive for a session that was never registered is refused with
    /// `Error::UnknownSession` and changes nothing, unless there is exactly one session:
    /// a lone session gets every directive.
    pub proof fn lemma_unknown_session_refused(
        self,
        submission: Submission<P>,
        accepted: Result<Processed<P>, Error>,
        post: Self,
    )
        requires
            self.wf(),
            self.accepts(submission, accepted, post),
            submission.data.targets_session(),
            !self.has_session(submission.manager_id),
            self.sessions.len() != 1,
        ensures
            accepted == Err::<Processed<P>, Error>(Error::UnknownSession(submission.manager_id)),
            post == self,
            self.slot_of(submission.manager_id) is None,
    {
        self.lemma_has_session(submission.manager_id);
    }

    /// A directive for a registered session is never refused and never put off, whether
    /// or not a handler is running: it becomes a request to the backend at once, and the
    /// answer of the backend becomes its reply.
    pub proof fn lemma_known_session_served(
        self,
        submission: Submission<P>,
        accepted: Result<Processed<P>, Error>,
        post: Self,
    )
        requires
            self.wf(),
            self.accepts(submission, accepted, post),
            submission.data.targets_session(),
            self.has_session(submission.manager_id),
        ensures
            accepted == Ok::<Processed<P>, Error>(Processed::Pending(submission.data.request())),
            self.slot_of(submission.manager_id) is Some,
    {
        self.lemma_has_session(submission.manager_id);
    }

    /// A session that was just registered has no window, no handler, and nothing going
    /// on, and its number is the number of sessions that were there before it.
    pub proof fn lemma_registered_session_is_fresh(self)
        requires
            !self.full(),
        ensures
            self.registered().sessions.len() == self.sessions.len() + 1,
            self.registered().sessions.last().runtime_id == self.sessions.len(),
            self.registered().sessions.last().window_count == 0,
            self.registered().sessions.last().event_handler is None,
            !self.registered().sessions.last().waiting,
            self.registered().sessions.last().queued.len() == 0,
            forall|i: int|
                0 <= i < self.sessions.len() ==> #[trigger] self.registered().sessions[i]
                    == self.sessions[i],
    {
    }

    /// What becomes of a directive is one of four things, and which one is decided by the
    /// directive and the sessions alone: `Quit` is answered to nobody; registering and
    /// offloaded work are answered at once, with one reply; a directive for a session is
    /// refused if the session is unknown, and else becomes one request, whose answer from
    /// the backend becomes its one reply.
    pub proof fn lemma_directive_outcomes(
        self,
        submission: Submission<P>,
        accepted: Result<Processed<P>, Error>,
        post: Self,
    )
        requires
            self.accepts(submission, accepted, post),
        ensures
            accepted matches Ok(Processed::Finished) <==> submission.data is Quit,
            accepted matches Ok(Processed::Answered(_)) <==> submission.data is RegisterManager
                || submission.data is Offload,
            accepted matches Ok(Processed::Pending(_)) <==> submission.data.targets_session()
                && self.slot_of(submission.manager_id) is Some,
            accepted is Err <==> submission.data.targets_session() && self.slot_of(
                submission.manager_id,
            ) is None,
            accepted matches Err(e) ==> e == Error::UnknownSession(submission.manager_id),
            !(submission.data is RegisterManager) && !(submission.data is Quit) ==> post == self,
    {
    }

    /// A window that the backend has created for a session raises the count of that
    /// session by one, up to the largest number the count can hold, and changes nothing
    /// else: no other session, no handler, and nothing is sent to the relay.
    pub proof fn lemma_created_window_counts(
        self,
        slot: int,
        request: Request<P>,
        outcome: Result<usize, Error>,
        messages: Seq<DirectiveThreadMessage<P>>,
    )
        requires
            self.wf(),
            0 <= slot < self.sessions.len(),
            request.created(outcome),
            self.tells(Occurrence::Settle(slot as usize, request, outcome), messages),
        ensures
            self.sessions[slot].window_count < usize::MAX ==> self.settled(
                slot,
                request,
                outcome,
            ).sessions[slot].window_count == self.sessions[slot].window_count + 1,
            self.settled(slot, request, outcome).sessions[slot] == (SessionView {
                window_count: self.settled(slot, request, outcome).sessions[slot].window_count,
                ..self.sessions[slot]
            }),
            forall|j: int|
                0 <= j < self.sessions.len() && j != slot ==> #[trigger] self.settled(
                    slot,
                    request,
                    outcome,
                ).sessions[j] == self.sessions[j],
            self.settled(slot, request, outcome).in_flight == self.in_flight,
            messages.len() == 0,
    {
    }

    /// A request that neither creates nor closes a window changes nothing, whatever the
    /// backend answers to it, and nothing is sent to the relay for it. Nor does a window
    /// that the backend could not create or could not close.
    pub proof fn lemma_other_requests_change_nothing(
        self,
        manager_id: usize,
        request: Request<P>,
        outcome: Result<usize, Error>,
        messages: Seq<DirectiveThreadMessage<P>>,
    )
        requires
            self.wf(),
            !request.created(outcome),
            request.closed(outcome) is None,
            self.tells(Occurrence::Settle(manager_id, request, outcome), messages),
        ensures
            self.after(Occurrence::Settle(manager_id, request, outcome)) == self,
            messages.len() == 0,
            request is Show || request is Hide || request is Move ==> !request.created(outcome)
                && request.closed(outcome) is None,
    {
    }

    /// The closing of a session's one window, with no handler in flight, has the handler
    /// told of the closing and then told to quit, each once and with nothing between
    /// them, and leaves the session without a window and the relay forwarding.
    ///
    /// `first` is what is handed back when the backend has closed the window, `second`
    /// and `third` what is handed back when the relay tells that the one and then the
    /// other handler is done.
    pub proof fn lemma_last_close_then_quit(
        self,
        slot: int,
        window: crate::event::Window,
        first: Seq<DirectiveThreadMessage<P>>,
        second: Seq<DirectiveThreadMessage<P>>,
        third: Seq<DirectiveThreadMessage<P>>,
    )
        requires
            self.wf(),
            self.in_flight.len() == 0,
            0 <= slot < self.sessions.len(),
            self.sessions[slot].window_count == 1,
            self.tells(
                Occurrence::Settle(slot as usize, Request::Close(window), Ok(0)),
                first,
            ),
            self.settled(slot, Request::Close(window), Ok(0)).tells(
                Occurrence::<P>::HandlerDone,
                second,
            ),
            self.settled(slot, Request::Close(window), Ok(0)).handler_done().tells(
                Occurrence::<P>::HandlerDone,
                third,
            ),
        ensures
            ({
                let closed = self.settled(slot, Request::Close(window), Ok(0));
                let quitting = closed.handler_done();
                let done = quitting.handler_done();
                &&& announces(first, self.sessions[slot], Event::Close(window))
                &&& closed.sessions[slot].window_count == 1
                &&& announces(second, closed.sessions[slot], Event::Quit)
                &&& quitting.sessions[slot].window_count == 0
                &&& resumes(third, quitting.sessions[slot], None)
                &&& done.sessions[slot].window_count == 0
                &&& !done.sessions[slot].waiting
                &&& done.in_flight.len() == 0
            }),
    {
        let closed = self.settled(slot, Request::Close(window), Ok(0));
        assert(self.slot_of(slot as usize) == Some(slot)) by {
            assert(self.sessions[slot].runtime_id == slot);
        }
        assert(!self.sessions[slot].waiting) by {
            if self.sessions[slot].waiting {
                assert(self.in_flight.contains(slot as usize));
            }
        }
        assert(closed.in_flight =~= seq![slot as usize]);
        let quitting = closed.handler_done();
        assert(quitting.in_flight =~= seq![slot as usize]);
    }

    /// The count of a session's windows changes in two ways only: it goes up by one when
    /// the backend has created a window for the session, and it goes down by one when the
    /// handler is done that was told of a closing window of the session.
    pub proof fn lemma_count_changes(self, occurrence: Occurrence<P>, slot: int)
        requires
            self.wf(),
            0 <= slot < self.sessions.len(),
        ensures
            ({
                let before = self.sessions[slot];
                let after = self.after(occurrence).sessions[slot];
                ||| after.window_count == before.window_count
                ||| {
                    &&& after.window_count == before.window_count + 1
                    &&& occurrence matches Occurrence::Settle(manager_id, request, outcome)
                    &&& self.slot_of(manager_id) == Some(slot)
                    &&& request.created(outcome)
                }
                ||| {
                    &&& after.window_count == before.window_count - 1
                    &&& occurrence is HandlerDone
                    &&& self.in_flight.len() > 0 && self.in_flight[0] == slot
                    &&& before.waiting && before.closing
                }
            }),
    {
    }

    /// The handler of a session is told of a closing window only when the backend has
    /// closed a window of the session, or when the closing was dispatched to the session
    /// as an event.
    pub proof fn lemma_closing_comes_from_a_close(self, occurrence: Occurrence<P>, slot: int)
        requires
            self.wf(),
            0 <= slot < self.sessions.len(),
            !self.sessions[slot].closing,
            self.after(occurrence).sessions[slot].closing,
        ensures
            ({
                ||| {
                    &&& occurrence matches Occurrence::Settle(manager_id, request, outcome)
                    &&& self.slot_of(manager_id) == Some(slot)
                    &&& request.closed(outcome) is Some
                }
                ||| {
                    &&& occurrence matches Occurrence::Dispatch(manager_id, event)
                    &&& self.slot_of(manager_id) == Some(slot)
                    &&& event is Close
                }
                ||| {
                    &&& occurrence is HandlerDone
                    &&& self.in_flight.len() > 0 && self.in_flight[0] == slot
                    &&& self.sessions[slot].queued.len() > 0
                    &&& self.sessions[slot].queued[0] is Close
                }
            }),
    {
    }
}

} // verus!
