//! The controller of the runtime thread: the sessions it serves and what it decides.
//!
//! The controller does no work of the host itself. It is told what the host's event loop
//! yielded and what the backend answered, and says what is to be done next. Whoever drives
//! the runtime thread waits on the event loop, calls the backend, and sends what the
//! controller hands back.

use crate::directive::{Directive, Processed, Reply, Request, Submission};
use crate::error::Error;
use crate::event::Event;
use crate::host::Host;
use crate::manager::data::{ManagerData, SessionView};
use crate::manager::thread::DirectiveThreadMessage;
use crate::window::event::{announces, event_finished, handed_back, process_event, resumes};
use crate::window::window::window_should_close;
use vstd::prelude::*;

pub mod laws;

pub use laws::Occurrence;

verus! {

/// The type that the host gives to an event that an application defines for itself.
pub const APPLICATION_DEFINED: u64 = 15;

/// The subtype that marks an application-defined event as one that carries a directive.
pub const DIRECTIVE_EVENT_SUBTYPE: i16 = 0x1337;

/// What one turn of the runtime thread's loop has to deal with.
#[derive(Debug, Copy, Clone, PartialEq, Eq, Structural)]
pub enum LoopCycle {
    /// The loop ends.
    Break,
    /// The host's event carries a directive, which is to be unwrapped and processed.
    Directive,
    /// The event is the host's own: it is passed on to the host and translated.
    Event,
}

/// The runtime thread's state: every session that was ever registered, the sessions whose
/// handler is running, and whether the thread was told to stop.
pub struct ItaosController<P: Host> {
    // the sessions, in the order they were registered; none is ever removed
    managers: Vec<ManagerData<P>>,
    // where the sessions stand whose handler is running, in the order the handlers were started
    in_flight: Vec<usize>,
    // should we break the loop?
    stop_loop: bool,
}

/// The controller as contracts speak of it.
#[verifier::ext_equal]
pub struct ControllerView<P: Host> {
    /// The sessions, in the order they were registered.
    pub sessions: Seq<SessionView<P>>,
    /// Where the sessions stand whose handler is running, in the order the handlers were
    /// started. The relay runs them in this order, one after the other.
    pub in_flight: Seq<usize>,
    pub stop_loop: bool,
}

/// The mark that a program has its runtime thread. There can only ever be one.
pub struct OneAndDone {
    claimed: bool,
}

/// The runtime thread, as the one who made it holds it.
pub struct ItaosThread<P: Host> {
    inner: ItaosController<P>,
}

/// What `settle` hands back: the reply for the caller of the directive, and what is to be
/// sent to the relay, in this order.
pub struct Settled<P: Host> {
    pub reply: Reply<P>,
    pub messages: Vec<DirectiveThreadMessage<P>>,
}

impl<P: Host> ControllerView<P> {
    /// Sessions are numbered from zero in the order they were registered; no event of a
    /// session waits unless its handler is running; and the sessions in flight are
    /// exactly those whose handler is running, each named once.
    pub open spec fn wf(self) -> bool {
        &&& forall|i: int| 0 <= i < self.sessions.len() ==> (#[trigger] self.sessions[i]).runtime_id == i
        &&& forall|i: int| 0 <= i < self.sessions.len() ==> (#[trigger] self.sessions[i]).wf()
        &&& forall|k: int|
            0 <= k < self.in_flight.len() ==> (#[trigger] self.in_flight[k]) < self.sessions.len()
                && self.sessions[self.in_flight[k] as int].waiting
        &&& forall|k: int, l: int|
            0 <= k < l < self.in_flight.len() ==> #[trigger] self.in_flight[k] != #[trigger] self.in_flight[l]
        &&& forall|i: int|
            0 <= i < self.sessions.len() && (#[trigger] self.sessions[i]).waiting
                ==> self.in_flight.contains(i as usize)
    }

    /// Whether a session was registered under this number.
    pub open spec fn has_session(self, manager_id: usize) -> bool {
        exists|i: int| 0 <= i < self.sessions.len() && (#[trigger] self.sessions[i]).runtime_id == manager_id
    }

    /// Where the session that a directive for `manager_id` is meant for stands.
    ///
    /// A lone session gets every directive, whatever number the directive names. With any
    /// other number of sessions the directive goes to the session registered under
    /// `manager_id`, and nowhere if there is none.
    pub open spec fn slot_of(self, manager_id: usize) -> Option<int> {
        if self.sessions.len() == 1 {
            Some(0)
        } else if manager_id < self.sessions.len() {
            Some(manager_id as int)
        } else {
            None
        }
    }

    /// The controller after one more session was registered.
    pub open spec fn registered(self) -> Self {
        ControllerView {
            sessions: self.sessions.push(SessionView::fresh(self.sessions.len() as usize)),
            ..self
        }
    }

    /// The controller after it was told to stop.
    pub open spec fn halted(self) -> Self {
        ControllerView { stop_loop: true, ..self }
    }

    /// The controller with `session` in place of the one at `slot`.
    pub open spec fn with_session(self, slot: int, session: SessionView<P>) -> Self {
        ControllerView { sessions: self.sessions.update(slot, session), ..self }
    }

    /// The controller after `event` came up for the session at `slot`. If the handler of
    /// the session starts for it, the session is in flight from then on, behind those
    /// that already are.
    pub open spec fn posted(self, slot: int, event: Event<P>) -> Self {
        ControllerView {
            sessions: self.sessions.update(slot, self.sessions[slot].posted(event)),
            in_flight: if self.sessions[slot].waiting {
                self.in_flight
            } else {
                self.in_flight.push(slot as usize)
            },
            ..self
        }
    }

    /// The controller after the backend answered `outcome` to `request`, made for the
    /// session at `slot`: a window that was created is counted, and the handler is told
    /// of a window that was closed.
    pub open spec fn settled(self, slot: int, request: Request<P>, outcome: Result<usize, Error>) -> Self {
        if request.created(outcome) {
            self.with_session(slot, self.sessions[slot].window_created())
        } else {
            match request.closed(outcome) {
                Some(window) => self.posted(slot, Event::Close(window)),
                None => self,
            }
        }
    }

    /// The controller after the relay told that a handler is done.
    ///
    /// The handler that is done is the one that was started first of those that run. If
    /// the handler of its session is started again at once, for the next event, the
    /// session is in flight still, now behind the others.
    pub open spec fn handler_done(self) -> Self {
        if self.in_flight.len() == 0 {
            self
        } else {
            let slot = self.in_flight[0];
            let session = self.sessions[slot as int].finished();
            ControllerView {
                sessions: self.sessions.update(slot as int, session),
                in_flight: if session.waiting {
                    self.in_flight.drop_first().push(slot)
                } else {
                    self.in_flight.drop_first()
                },
                ..self
            }
        }
    }

    /// Whether `messages` are what is to be sent to the relay when it told that a handler
    /// is done.
    ///
    /// If an event of the handler's session is due, they are the two messages that start
    /// the handler for it. If none is due and no other handler is in flight, the relay
    /// is told to stop and to start again, and goes back to forwarding. While another
    /// handler is in flight the relay is told nothing: it stays stopped.
    pub open spec fn resumed_by(self, messages: Seq<DirectiveThreadMessage<P>>) -> bool {
        if self.in_flight.len() == 0 {
            messages.len() == 0
        } else {
            let session = self.sessions[self.in_flight[0] as int];
            match session.next_event() {
                Some(event) => announces(messages, session, event),
                None => if self.in_flight.len() == 1 {
                    resumes(messages, session, None)
                } else {
                    messages.len() == 0
                },
            }
        }
    }

    /// Registering a session keeps the controller in order.
    pub proof fn lemma_registered_wf(self)
        requires
            self.wf(),
            self.sessions.len() < usize::MAX,
        ensures
            self.registered().wf(),
    {
        let post = self.registered();
        assert forall|i: int| 0 <= i < post.sessions.len() implies (#[trigger] post.sessions[i]).runtime_id
            == i && post.sessions[i].wf() by {
            if i < self.sessions.len() {
                assert(post.sessions[i] == self.sessions[i]);
            }
        }
        assert forall|k: int| 0 <= k < post.in_flight.len() implies (#[trigger] post.in_flight[k])
            < post.sessions.len() && post.sessions[post.in_flight[k] as int].waiting by {
            assert(post.sessions[self.in_flight[k] as int] == self.sessions[self.in_flight[k] as int]);
        }
        assert forall|i: int| 0 <= i < post.sessions.len() && (#[trigger] post.sessions[i]).waiting implies post.in_flight.contains(
            i as usize,
        ) by {
            assert(post.sessions[i] == self.sessions[i]);
        }
    }

    /// Putting a session in the place of one with the same number keeps the controller in
    /// order, if the handler runs for the one as it did for the other.
    pub proof fn lemma_with_session_wf(self, slot: int, session: SessionView<P>)
        requires
            self.wf(),
            0 <= slot < self.sessions.len(),
            session.runtime_id == self.sessions[slot].runtime_id,
            session.waiting == self.sessions[slot].waiting,
            session.wf(),
        ensures
            self.with_session(slot, session).wf(),
    {
        let post = self.with_session(slot, session);
        assert forall|i: int| 0 <= i < post.sessions.len() implies (#[trigger] post.sessions[i]).runtime_id
            == i && post.sessions[i].wf() by {
            if i != slot {
                assert(post.sessions[i] == self.sessions[i]);
            }
        }
        assert forall|k: int| 0 <= k < post.in_flight.len() implies (#[trigger] post.in_flight[k])
            < post.sessions.len() && post.sessions[post.in_flight[k] as int].waiting by {
            assert(self.sessions[self.in_flight[k] as int].waiting);
        }
        assert forall|i: int| 0 <= i < post.sessions.len() && (#[trigger] post.sessions[i]).waiting implies post.in_flight.contains(
            i as usize,
        ) by {
            assert(self.sessions[i].waiting);
        }
    }

    /// An event that comes up for a session keeps the controller in order.
    pub proof fn lemma_posted_wf(self, slot: int, event: Event<P>)
        requires
            self.wf(),
            0 <= slot < self.sessions.len(),
        ensures
            self.posted(slot, event).wf(),
    {
        let post = self.posted(slot, event);
        assert forall|i: int| 0 <= i < post.sessions.len() implies (#[trigger] post.sessions[i]).runtime_id
            == i && post.sessions[i].wf() by {
            if i != slot {
                assert(post.sessions[i] == self.sessions[i]);
            }
        }
        assert forall|k: int| 0 <= k < post.in_flight.len() implies (#[trigger] post.in_flight[k])
            < post.sessions.len() && post.sessions[post.in_flight[k] as int].waiting by {
            if k < self.in_flight.len() {
                assert(self.sessions[self.in_flight[k] as int].waiting);
            }
        }
        assert forall|k: int, l: int| 0 <= k < l < post.in_flight.len() implies #[trigger] post.in_flight[k]
            != #[trigger] post.in_flight[l] by {
            if l == self.in_flight.len() {
                assert(self.sessions[self.in_flight[k] as int].waiting);
            }
        }
        assert forall|i: int| 0 <= i < post.sessions.len() && (#[trigger] post.sessions[i]).waiting implies post.in_flight.contains(
            i as usize,
        ) by {
            if i == slot && !self.sessions[slot].waiting {
                assert(post.in_flight[self.in_flight.len() as int] == slot);
            } else {
                assert(self.sessions[i].waiting);
                let k = choose|k: int| 0 <= k < self.in_flight.len() && self.in_flight[k] == i;
                assert(post.in_flight[k] == i);
            }
        }
    }

    /// What the backend answers keeps the controller in order.
    pub proof fn lemma_settled_wf(self, slot: int, request: Request<P>, outcome: Result<usize, Error>)
        requires
            self.wf(),
            0 <= slot < self.sessions.len(),
        ensures
            self.settled(slot, request, outcome).wf(),
    {
        if request.created(outcome) {
            self.lemma_with_session_wf(slot, self.sessions[slot].window_created());
        } else if let Some(window) = request.closed(outcome) {
            self.lemma_posted_wf(slot, Event::Close(window));
        }
    }

    /// A handler that is done keeps the controller in order.
    pub proof fn lemma_handler_done_wf(self)
        requires
            self.wf(),
        ensures
            self.handler_done().wf(),
    {
        if self.in_flight.len() > 0 {
            let post = self.handler_done();
            let slot = self.in_flight[0];
            let rest = self.in_flight.drop_first();
            assert forall|k: int| 0 <= k < rest.len() implies rest[k] != slot && rest[k]
                == self.in_flight[k + 1] by {
                assert(self.in_flight[0] != self.in_flight[k + 1]);
            }
            assert forall|i: int| 0 <= i < post.sessions.len() implies (#[trigger] post.sessions[i]).runtime_id
                == i && post.sessions[i].wf() by {
                if i != slot {
                    assert(post.sessions[i] == self.sessions[i]);
                } else {
                    assert(self.sessions[self.in_flight[0] as int].waiting);
                }
            }
            assert forall|k: int| 0 <= k < post.in_flight.len() implies (#[trigger] post.in_flight[k])
                < post.sessions.len() && post.sessions[post.in_flight[k] as int].waiting by {
                if k < rest.len() {
                    assert(post.in_flight[k] == self.in_flight[k + 1]);
                    assert(self.sessions[self.in_flight[k + 1] as int].waiting);
                }
            }
            assert forall|k: int, l: int| 0 <= k < l < post.in_flight.len() implies #[trigger] post.in_flight[k]
                != #[trigger] post.in_flight[l] by {
                assert(post.in_flight[k] == self.in_flight[k + 1]);
                if l < rest.len() {
                    assert(post.in_flight[l] == self.in_flight[l + 1]);
                    assert(self.in_flight[k + 1] != self.in_flight[l + 1]);
                }
            }
            assert forall|i: int| 0 <= i < post.sessions.len() && (#[trigger] post.sessions[i]).waiting implies post.in_flight.contains(
                i as usize,
            ) by {
                if i == slot {
                    assert(post.in_flight[rest.len() as int] == slot);
                } else {
                    assert(self.sessions[i].waiting);
                    let k = choose|k: int| 0 <= k < self.in_flight.len() && self.in_flight[k] == i;
                    assert(post.in_flight[k - 1] == i);
                }
            }
        }
    }

    /// What a turn of the loop has to deal with, given what the host's event loop yielded:
    /// the type and subtype of an event, or nothing.
    pub open spec fn cycle_for(self, polled: Option<(u64, i16)>) -> LoopCycle {
        match polled {
            Some((ty, subty)) if !self.stop_loop => if ty == APPLICATION_DEFINED && subty
                == DIRECTIVE_EVENT_SUBTYPE {
                LoopCycle::Directive
            } else {
                LoopCycle::Event
            },
            _ => LoopCycle::Break,
        }
    }

    /// Whether `accepted` and `post` are what processing `submission` makes of `self`.
    ///
    /// Registering opens a session and answers with its number. `Quit` stops the loop and
    /// answers nobody. Offloaded work is run and answered with what it returned; it needs
    /// no session. Any other directive needs its session: if there is none, the directive
    /// is refused with `Error::UnknownSession`, else it becomes a request to the backend.
    pub open spec fn accepts(
        self,
        submission: Submission<P>,
        accepted: Result<Processed<P>, Error>,
        post: Self,
    ) -> bool {
        match submission.data {
            Directive::RegisterManager => {
                &&& accepted == Ok::<Processed<P>, Error>(
                    Processed::Answered(Reply::Registered(self.sessions.len() as usize)),
                )
                &&& post == self.registered()
            },
            Directive::Quit => {
                &&& accepted == Ok::<Processed<P>, Error>(Processed::Finished)
                &&& post == self.halted()
            },
            Directive::Offload(work) => {
                &&& accepted matches Ok(Processed::Answered(Reply::Offloaded(output)))
                &&& call_ensures(work, (), output)
                &&& post == self
            },
            _ => {
                &&& post == self
                &&& match self.slot_of(submission.manager_id) {
                    Some(_) => accepted == Ok::<Processed<P>, Error>(
                        Processed::Pending(submission.data.request()),
                    ),
                    None => accepted == Err::<Processed<P>, Error>(
                        Error::UnknownSession(submission.manager_id),
                    ),
                }
            },
        }
    }
}

impl OneAndDone {
    /// Whether the program has its runtime thread.
    pub closed spec fn claimed(self) -> bool {
        self.claimed
    }

    /// The mark of a program that has no runtime thread yet.
    pub fn new() -> (mark: Self)
        ensures
            !mark.claimed(),
    {
        OneAndDone { claimed: false }
    }

    /// Whether the program has its runtime thread.
    pub fn is_claimed(&self) -> (claimed: bool)
        ensures
            claimed == self.claimed(),
    {
        self.claimed
    }

    /// Takes the mark back, for a runtime thread that could not be brought up after all.
    pub fn release(&mut self)
        ensures
            !final(self).claimed(),
    {
        self.claimed = false;
    }
}

impl<P: Host> ItaosThread<P> {
    /// The controller of the thread.
    pub closed spec fn controller(self) -> ItaosController<P> {
        self.inner
    }

    /// Makes the program's runtime thread, if it has none yet.
    ///
    /// The first call on a mark succeeds and every later one fails with
    /// `Error::Exclusive`, until the mark is released.
    pub fn new(mark: &mut OneAndDone) -> (thread: Result<ItaosThread<P>, Error>)
        ensures
            final(mark).claimed(),
            old(mark).claimed() ==> thread == Err::<ItaosThread<P>, Error>(Error::Exclusive),
            !old(mark).claimed() ==> {
                &&& thread matches Ok(t)
                &&& t.controller()@.sessions.len() == 0
                &&& !t.controller()@.stop_loop
                &&& t.controller()@.wf()
            },
    {
        if mark.claimed {
            return Err(Error::Exclusive);
        }
        mark.claimed = true;
        Ok(ItaosThread { inner: ItaosController::new() })
    }

    /// Gives up the thread for its controller.
    pub fn into_inner(self) -> (controller: ItaosController<P>)
        ensures
            controller == self.controller(),
    {
        self.inner
    }
}

impl<P: Host> View for ItaosController<P> {
    type V = ControllerView<P>;

    closed spec fn view(&self) -> ControllerView<P> {
        ControllerView {
            sessions: Seq::new(self.managers@.len(), |i: int| self.managers@[i]@),
            in_flight: self.in_flight@,
            stop_loop: self.stop_loop,
        }
    }
}

impl<P: Host> ItaosController<P> {
    /// A controller without sessions that was not told to stop.
    pub fn new() -> (controller: Self)
        ensures
            controller@.sessions.len() == 0,
            controller@.in_flight.len() == 0,
            !controller@.stop_loop,
            controller@.wf(),
    {
        ItaosController { managers: Vec::new(), in_flight: Vec::new(), stop_loop: false }
    }

    /// How many sessions were registered.
    pub fn len(&self) -> (len: usize)
        ensures
            len == self@.sessions.len(),
    {
        self.managers.len()
    }

    /// Whether the controller was told to stop.
    pub fn is_stopped(&self) -> (stopped: bool)
        ensures
            stopped == self@.stop_loop,
    {
        self.stop_loop
    }

    /// Whether the handler of some session is running, so that the runtime thread has to
    /// serve the directive queue itself.
    pub fn is_draining(&self) -> (draining: bool)
        ensures
            draining == (self@.in_flight.len() > 0),
    {
        self.in_flight.len() > 0
    }

    /// Opens a session and hands back its number: one more than the number of the session
    /// that was opened last, and zero for the first.
    pub fn register(&mut self) -> (runtime_id: usize)
        requires
            old(self)@.wf(),
        ensures
            runtime_id == old(self)@.sessions.len(),
            final(self)@ == old(self)@.registered(),
            final(self)@.wf(),
    {
        let runtime_id: usize = self.managers.len();
        self.managers.push(ManagerData::new(runtime_id));
        proof {
            assert(self.managers@.len() == self.managers.len());
            old(self)@.lemma_registered_wf();
            assert(self@ == old(self)@.registered());
        }
        runtime_id
    }

    /// Finds the session that a directive for `manager_id` is meant for.
    pub fn lookup(&self, manager_id: usize) -> (slot: Result<usize, Error>)
        requires
            self@.wf(),
        ensures
            match self@.slot_of(manager_id) {
                Some(i) => slot == Ok::<usize, Error>(i as usize),
                None => slot == Err::<usize, Error>(Error::UnknownSession(manager_id)),
            },
    {
        // fast path: a lone session is not even asked for its number
        if self.managers.len() == 1 {
            return Ok(0);
        }
        let mut i: usize = 0;
        while i < self.managers.len()
            invariant
                i <= self.managers@.len(),
                self@.wf(),
                self@.sessions.len() == self.managers@.len(),
                forall|j: int| 0 <= j < i ==> (#[trigger] self@.sessions[j]).runtime_id != manager_id,
            decreases self.managers@.len() - i,
        {
            assert(self@.sessions[i as int].runtime_id == i);
            if self.managers[i].runtime_id == manager_id {
                return Ok(i);
            }
            i = i + 1;
        }
        proof {
            if manager_id < self@.sessions.len() {
                assert(self@.sessions[manager_id as int].runtime_id == manager_id);
            }
        }
        Err(Error::UnknownSession(manager_id))
    }

    /// What the controller keeps for the session that `manager_id` leads to.
    pub fn session(&self, manager_id: usize) -> (data: Result<&ManagerData<P>, Error>)
        requires
            self@.wf(),
        ensures
            match self@.slot_of(manager_id) {
                Some(i) => data matches Ok(d) && d@ == self@.sessions[i],
                None => data matches Err(e) && e == Error::UnknownSession(manager_id),
            },
    {
        match self.lookup(manager_id) {
            Ok(slot) => Ok(&self.managers[slot]),
            Err(e) => Err(e),
        }
    }

    /// Puts another handler in place for a session and hands back the one that was there.
    ///
    /// The next event whose handler is started gets the new one. An event whose handler
    /// already runs is not touched.
    pub fn replace_handler(&mut self, manager_id: usize, handler: P::Handler) -> (previous: Result<
        Option<P::Handler>,
        Error,
    >)
        requires
            old(self)@.wf(),
        ensures
            final(self)@.wf(),
            match old(self)@.slot_of(manager_id) {
                Some(i) => {
                    &&& previous == Ok::<Option<P::Handler>, Error>(old(self)@.sessions[i].event_handler)
                    &&& final(self)@ == old(self)@.with_session(
                        i,
                        old(self)@.sessions[i].with_handler(handler),
                    )
                },
                None => {
                    &&& previous == Err::<Option<P::Handler>, Error>(Error::UnknownSession(manager_id))
                    &&& final(self)@ == old(self)@
                },
            },
    {
        match self.lookup(manager_id) {
            Ok(slot) => {
                let previous = self.managers[slot].replace_handler(handler);
                proof {
                    let session = old(self)@.sessions[slot as int].with_handler(handler);
                    old(self)@.lemma_with_session_wf(slot as int, session);
                    assert(self@ == old(self)@.with_session(slot as int, session));
                }
                Ok(previous)
            },
            Err(e) => Err(e),
        }
    }

    /// Says what a turn of the loop has to deal with, given what the host's event loop
    /// yielded: the type and subtype of an event, or nothing.
    pub fn loop_cycle(&self, polled: Option<(u64, i16)>) -> (cycle: LoopCycle)
        ensures
            cycle == self@.cycle_for(polled),
    {
        if self.stop_loop {
            return LoopCycle::Break;
        }
        match polled {
            // interpret a missing event as a break
            None => LoopCycle::Break,
            Some((ty, subty)) => {
                // if the event is one of ours, it carries a directive
                if ty == APPLICATION_DEFINED && subty == DIRECTIVE_EVENT_SUBTYPE {
                    LoopCycle::Directive
                } else {
                    LoopCycle::Event
                }
            },
        }
    }

    /// Processes a directive as far as no backend is needed for it.
    pub fn process_directive(&mut self, submission: Submission<P>) -> (accepted: Result<
        Processed<P>,
        Error,
    >)
        requires
            old(self)@.wf(),
            submission.data matches Directive::Offload(work) ==> call_requires(work, ()),
        ensures
            final(self)@.wf(),
            old(self)@.accepts(submission, accepted, final(self)@),
    {
        let Submission { manager_id, data } = submission;
        match data {
            Directive::RegisterManager => {
                let runtime_id = self.register();
                Ok(Processed::Answered(Reply::Registered(runtime_id)))
            },
            Directive::Quit => {
                self.stop_loop = true;
                Ok(data.process())
            },
            Directive::Offload(_) => Ok(data.process()),
            _ => match self.lookup(manager_id) {
                Ok(_) => Ok(data.process()),
                Err(e) => Err(e),
            },
        }
    }

    /// Takes note of what the backend answered to a request made for a session.
    ///
    /// Hands back the reply for the caller of the directive, and what is to be sent to
    /// the relay. A window that was created is counted. The handler is told of a window
    /// that was closed: at once if it is not running, else when its turn comes.
    pub fn settle(&mut self, manager_id: usize, request: Request<P>, outcome: Result<usize, Error>) -> (settled:
        Result<Settled<P>, Error>)
        requires
            old(self)@.wf(),
            request.admits(outcome),
        ensures
            final(self)@.wf(),
            match old(self)@.slot_of(manager_id) {
                Some(i) => {
                    &&& settled matches Ok(s)
                    &&& handed_back(s.messages@)
                    &&& old(self)@.tells(Occurrence::Settle(manager_id, request, outcome), s.messages@)
                    &&& s.reply == request.reply_for(outcome)
                    &&& final(self)@ == old(self)@.settled(i, request, outcome)
                    &&& match request.closed(outcome) {
                        Some(window) if !old(self)@.sessions[i].waiting => announces(
                            s.messages@,
                            old(self)@.sessions[i],
                            Event::Close(window),
                        ),
                        _ => s.messages@.len() == 0,
                    }
                },
                None => {
                    &&& settled matches Err(e)
                    &&& e == Error::UnknownSession(manager_id)
                    &&& final(self)@ == old(self)@
                },
            },
    {
        let slot = match self.lookup(manager_id) {
            Ok(slot) => slot,
            Err(e) => { return Err(e); },
        };
        let succeeded = outcome.is_ok();
        let reply = request.reply(outcome);
        let messages = match request {
            Request::CreateWindow { .. } => {
                if succeeded {
                    self.managers[slot].window_created();
                }
                Vec::new()
            },
            Request::Close(window) => {
                if succeeded {
                    self.start(slot, Event::Close(window))
                } else {
                    Vec::new()
                }
            },
            _ => Vec::new(),
        };
        proof {
            old(self)@.lemma_settled_wf(slot as int, request, outcome);
            assert(self@ == old(self)@.settled(slot as int, request, outcome));
        }
        Ok(Settled { reply, messages })
    }

    // has the handler of the session at `slot` told of `event`
    fn start(&mut self, slot: usize, event: Event<P>) -> (messages: Vec<DirectiveThreadMessage<P>>)
        requires
            old(self)@.wf(),
            slot < old(self)@.sessions.len(),
        ensures
            final(self)@.wf(),
            final(self)@ == old(self)@.posted(slot as int, event),
            handed_back(messages@),
            old(self)@.sessions[slot as int].waiting ==> messages@.len() == 0,
            !old(self)@.sessions[slot as int].waiting ==> announces(
                messages@,
                old(self)@.sessions[slot as int],
                event,
            ),
    {
        let running = self.managers[slot].waiting;
        let messages = match event {
            Event::Close(window) => window_should_close(&mut self.managers[slot], window),
            event => process_event(&mut self.managers[slot], event),
        };
        if !running {
            self.in_flight.push(slot);
        }
        proof {
            old(self)@.lemma_posted_wf(slot as int, event);
            assert(self@ == old(self)@.posted(slot as int, event));
        }
        messages
    }

    /// Has the handler of a session told of an event.
    ///
    /// Hands back what is to be sent to the relay for the handler to start; that is
    /// nothing while the handler runs for an earlier event, and the event then waits.
    pub fn dispatch_event(&mut self, manager_id: usize, event: Event<P>) -> (messages: Result<
        Vec<DirectiveThreadMessage<P>>,
        Error,
    >)
        requires
            old(self)@.wf(),
        ensures
            final(self)@.wf(),
            match old(self)@.slot_of(manager_id) {
                Some(i) => {
                    &&& messages matches Ok(m)
                    &&& handed_back(m@)
                    &&& old(self)@.tells(Occurrence::Dispatch(manager_id, event), m@)
                    &&& final(self)@ == old(self)@.posted(i, event)
                    &&& old(self)@.sessions[i].waiting ==> m@.len() == 0
                    &&& !old(self)@.sessions[i].waiting ==> announces(m@, old(self)@.sessions[i], event)
                },
                None => {
                    &&& messages matches Err(e)
                    &&& e == Error::UnknownSession(manager_id)
                    &&& final(self)@ == old(self)@
                },
            },
    {
        match self.lookup(manager_id) {
            Ok(slot) => Ok(self.start(slot, event)),
            Err(e) => Err(e),
        }
    }

    /// Takes note that the relay told that a handler is done.
    ///
    /// The relay runs the handlers in the order they were started and tells of each that
    /// it is done, without saying whose it was: it was the one started first of those
    /// that run. Hands back what is to be sent to the relay. If another event of the
    /// same session is due, its handler is started at once. If none is due, the relay
    /// goes back to forwarding, but only once no handler of any session is left in
    /// flight: until then it is told nothing and stays stopped. Nothing is done if no
    /// handler runs.
    pub fn handler_done(&mut self) -> (messages: Vec<DirectiveThreadMessage<P>>)
        requires
            old(self)@.wf(),
        ensures
            final(self)@.wf(),
            final(self)@ == old(self)@.handler_done(),
            old(self)@.resumed_by(messages@),
            old(self)@.tells(Occurrence::<P>::HandlerDone, messages@),
            handed_back(messages@),
    {
        if self.in_flight.len() == 0 {
            return Vec::new();
        }
        let slot = self.in_flight.remove(0);
        let resuming = event_finished(&mut self.managers[slot]);
        let messages = if self.managers[slot].waiting {
            self.in_flight.push(slot);
            resuming
        } else if self.in_flight.len() > 0 {
            // other handlers are still running: the relay stays stopped
            Vec::new()
        } else {
            resuming
        };
        proof {
            old(self)@.lemma_handler_done_wf();
            assert(old(self)@.in_flight.remove(0) == old(self)@.in_flight.drop_first());
            assert(self@ == old(self)@.handler_done());
            assert(old(self)@.sessions[slot as int].waiting);
        }
        messages
    }
}

} // verus!
