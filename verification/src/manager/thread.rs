//! The relay: the thread that turns queued directives into wake-ups of the runtime thread.
//!
//! The relay has two channels to read: the queue of directives and a channel on which the
//! runtime thread tells it what to do. While it is started it forwards every directive it
//! finds to the host's event queue. While it is stopped it forwards nothing, and runs the
//! event handlers that the runtime thread sends it. What is written here is what the relay
//! decides; reading the channels, posting to the host and running the handler is left to
//! whoever drives it.

use crate::error::Error;
use crate::event::Event;
use crate::host::Host;
use crate::task::{poll, Polled, ServerTask};
use vstd::prelude::*;

verus! {

/// What the runtime thread tells the relay.
pub enum DirectiveThreadMessage<P: Host> {
    /// Go back to forwarding directives.
    Start,
    /// Stop forwarding directives, and do what comes next on this channel.
    Stop,
    /// Run the handler, if there is one, for this event of the session with this number.
    RunEvent(usize, Event<P>, Option<P::Handler>),
}

/// What the relay is doing.
#[derive(Debug, Copy, Clone, PartialEq, Eq, Structural)]
pub enum RelayState {
    /// It forwards directives.
    Started,
    /// It forwards nothing and runs the handlers it is sent.
    Stopped,
    /// It has ended, and stays so.
    Exited,
}

/// What the relay found on one of its two channels.
#[verifier::reject_recursive_types(P)]
pub enum RelayInput<P: Host> {
    /// A message from the runtime thread.
    Control(DirectiveThreadMessage<P>),
    /// The runtime thread is gone: nobody can send a message any more.
    ControlClosed,
    /// An item of the directive queue: a task, or the empty marker.
    Queued(Option<ServerTask<P>>),
    /// Nobody can queue a directive any more.
    QueueClosed,
}

/// What the relay is to do about what it found.
#[verifier::reject_recursive_types(P)]
pub enum RelayAction<P: Host> {
    /// Nothing.
    Idle,
    /// Wrap the task in an event of the host and post it at the front of the host's queue.
    Forward(ServerTask<P>),
    /// Run the handler, if there is one, with the session and the event, and then put the
    /// empty marker into the directive queue to tell that the handler is done.
    Run { session: usize, event: Event<P>, handler: Option<P::Handler> },
    /// The task was not forwarded. It is handed back as it came.
    Deferred(ServerTask<P>),
    /// End the thread.
    Exit,
}

impl RelayState {
    /// The state of the relay after it dealt with `input`.
    pub open spec fn after<P: Host>(self, input: RelayInput<P>) -> RelayState {
        match self {
            RelayState::Exited => RelayState::Exited,
            RelayState::Started => match input {
                RelayInput::Control(DirectiveThreadMessage::Start) => RelayState::Started,
                RelayInput::Control(DirectiveThreadMessage::Stop) => RelayState::Stopped,
                RelayInput::Control(DirectiveThreadMessage::RunEvent(..)) => RelayState::Exited,
                RelayInput::Queued(_) => RelayState::Started,
                RelayInput::ControlClosed | RelayInput::QueueClosed => RelayState::Exited,
            },
            RelayState::Stopped => match input {
                RelayInput::Control(DirectiveThreadMessage::Start) => RelayState::Started,
                RelayInput::Control(_) => RelayState::Stopped,
                RelayInput::Queued(_) => RelayState::Stopped,
                RelayInput::ControlClosed | RelayInput::QueueClosed => RelayState::Exited,
            },
        }
    }

    /// What the relay is to do about `input`, or the error that `input` amounts to.
    ///
    /// A started relay forwards the tasks it finds. A stopped relay hands them back and
    /// runs the handlers it is sent. A handler sent to a started relay is a mistake of the
    /// sender, and ends the relay with `Error::RunEventWhileStarted`. A relay ends when one
    /// of its channels is closed, and an ended relay does nothing more.
    pub open spec fn reaction<P: Host>(self, input: RelayInput<P>) -> Result<RelayAction<P>, Error> {
        match self {
            RelayState::Exited => Ok(RelayAction::Exit),
            RelayState::Started => match input {
                RelayInput::Control(DirectiveThreadMessage::RunEvent(..)) => Err(
                    Error::RunEventWhileStarted,
                ),
                RelayInput::Control(_) => Ok(RelayAction::Idle),
                RelayInput::Queued(Some(task)) => Ok(RelayAction::Forward(task)),
                RelayInput::Queued(None) => Ok(RelayAction::Idle),
                RelayInput::ControlClosed | RelayInput::QueueClosed => Ok(RelayAction::Exit),
            },
            RelayState::Stopped => match input {
                RelayInput::Control(DirectiveThreadMessage::RunEvent(session, event, handler)) => Ok(
                    RelayAction::Run { session, event, handler },
                ),
                RelayInput::Control(_) => Ok(RelayAction::Idle),
                RelayInput::Queued(Some(task)) => Ok(RelayAction::Deferred(task)),
                RelayInput::Queued(None) => Ok(RelayAction::Idle),
                RelayInput::ControlClosed | RelayInput::QueueClosed => Ok(RelayAction::Exit),
            },
        }
    }
}

impl RelayState {
    /// Whether a relay in this state deals with every one of `messages`, sent to it in
    /// order by the runtime thread, without finding a mistake in them.
    pub open spec fn takes<P: Host>(self, messages: Seq<DirectiveThreadMessage<P>>) -> bool
        decreases messages.len(),
    {
        if messages.len() == 0 {
            true
        } else {
            &&& self.reaction(RelayInput::Control(messages[0])) is Ok
            &&& self.after(RelayInput::Control(messages[0])).takes(messages.drop_first())
        }
    }

    /// The state of the relay after it dealt with every one of `messages`, sent to it in
    /// order by the runtime thread.
    pub open spec fn after_messages<P: Host>(self, messages: Seq<DirectiveThreadMessage<P>>) -> RelayState
        decreases messages.len(),
    {
        if messages.len() == 0 {
            self
        } else {
            self.after(RelayInput::Control(messages[0])).after_messages(messages.drop_first())
        }
    }
}

impl<P: Host> RelayInput<P> {
    /// What a wait on the control channel yielded, as the relay takes it.
    pub fn from_control(received: Result<DirectiveThreadMessage<P>, flume::RecvError>) -> (input: Self)
        ensures
            input == match received {
                Ok(message) => RelayInput::Control(message),
                Err(_) => RelayInput::ControlClosed,
            },
    {
        match received {
            Ok(message) => RelayInput::Control(message),
            Err(_) => RelayInput::ControlClosed,
        }
    }

    /// What a look at the control channel yielded, as the relay takes it. An empty
    /// channel yields nothing to deal with.
    pub fn from_control_poll(polled: Polled<DirectiveThreadMessage<P>>) -> (input: Option<Self>)
        ensures
            input == match polled {
                Polled::Message(message) => Some(RelayInput::Control(message)),
                Polled::Empty => None,
                Polled::Closed => Some(RelayInput::ControlClosed),
            },
    {
        match polled {
            Polled::Message(message) => Some(RelayInput::Control(message)),
            Polled::Empty => None,
            Polled::Closed => Some(RelayInput::ControlClosed),
        }
    }

    /// What a wait on the directive queue yielded, as the relay takes it.
    pub fn from_queue(received: Result<Option<ServerTask<P>>, flume::RecvError>) -> (input: Self)
        ensures
            input == match received {
                Ok(item) => RelayInput::Queued(item),
                Err(_) => RelayInput::QueueClosed,
            },
    {
        match received {
            Ok(item) => RelayInput::Queued(item),
            Err(_) => RelayInput::QueueClosed,
        }
    }
}

/// What sending on a channel comes to: the message is on its way, or the channel is
/// closed because nobody reads it any more.
pub fn relayed<T>(sent: Result<(), flume::SendError<T>>) -> (outcome: Result<(), Error>)
    ensures
        sent is Ok ==> outcome is Ok,
        sent is Err ==> outcome == Err::<(), Error>(Error::ChannelClosed),
{
    match sent {
        Ok(()) => Ok(()),
        Err(_) => Err(Error::ChannelClosed),
    }
}

/// A stopped relay forwards nothing, whatever it finds: a task that it finds in the
/// directive queue is handed back as it came, and the relay stays stopped until it is told
/// to start or one of its channels is closed.
pub proof fn lemma_stopped_relay_forwards_nothing<P: Host>(input: RelayInput<P>)
    ensures
        !(RelayState::Stopped.reaction(input) matches Ok(RelayAction::Forward(_))),
        input matches RelayInput::Queued(Some(task)) ==> RelayState::Stopped.reaction(input) == Ok::<
            RelayAction<P>,
            Error,
        >(RelayAction::Deferred(task)),
        RelayState::Stopped.after(input) != RelayState::Stopped ==> {
            ||| input matches RelayInput::Control(DirectiveThreadMessage::Start)
            ||| input is ControlClosed
            ||| input is QueueClosed
        },
{
}

/// A started relay forwards every task it finds in the directive queue, as it came.
pub proof fn lemma_started_relay_forwards<P: Host>(task: ServerTask<P>)
    ensures
        RelayState::Started.reaction(RelayInput::Queued(Some(task))) == Ok::<RelayAction<P>, Error>(
            RelayAction::Forward(task),
        ),
        RelayState::Started.after(RelayInput::Queued(Some(task))) == RelayState::Started,
{
}

/// A handler is run by a stopped relay only: a started relay that is sent one ends with
/// `Error::RunEventWhileStarted`, and an ended relay runs nothing.
pub proof fn lemma_handler_runs_on_stopped_relay_only<P: Host>(state: RelayState, input: RelayInput<P>)
    requires
        state.reaction(input) matches Ok(RelayAction::Run { .. }),
    ensures
        state == RelayState::Stopped,
        state.after(input) == RelayState::Stopped,
{
}

/// The relay's own state.
pub struct DirectiveThread {
    state: RelayState,
}

impl DirectiveThread {
    /// What the relay is doing.
    pub closed spec fn state(self) -> RelayState {
        self.state
    }

    /// A relay that forwards directives.
    pub fn new() -> (relay: Self)
        ensures
            relay.state() == RelayState::Started,
    {
        DirectiveThread { state: RelayState::Started }
    }

    /// What the relay is doing.
    pub fn current(&self) -> (state: RelayState)
        ensures
            state == self.state(),
    {
        self.state
    }

    /// Whether the relay reads the directive queue: it does so only while it is started.
    pub fn reads_queue(&self) -> (reads: bool)
        ensures
            reads == (self.state() == RelayState::Started),
    {
        self.state == RelayState::Started
    }

    /// Waits for the next message of the runtime thread and deals with it. This is how a
    /// stopped relay spends its time. A relay that has ended does not wait.
    pub fn await_control<P: Host>(
        &mut self,
        control: &flume::Receiver<DirectiveThreadMessage<P>>,
    ) -> (action: Result<RelayAction<P>, Error>)
        ensures
            exists|input: RelayInput<P>|
                {
                    &&& input is Control || input is ControlClosed
                    &&& action == old(self).state().reaction(input)
                    &&& final(self).state() == old(self).state().after(input)
                },
            old(self).state() == RelayState::Exited ==> final(self).state() == RelayState::Exited
                && action == Ok::<RelayAction<P>, Error>(RelayAction::Exit),
    {
        if self.state == RelayState::Exited {
            return self.step(RelayInput::ControlClosed);
        }
        let input = RelayInput::from_control(control.recv());
        self.step(input)
    }

    /// Deals with the next message of the runtime thread, if one is there already.
    /// Otherwise nothing is done, and nothing is handed back. A relay that has ended does
    /// not look.
    pub fn poll_control<P: Host>(
        &mut self,
        control: &flume::Receiver<DirectiveThreadMessage<P>>,
    ) -> (action: Option<Result<RelayAction<P>, Error>>)
        ensures
            match action {
                Some(action) => exists|input: RelayInput<P>|
                    {
                        &&& input is Control || input is ControlClosed
                        &&& action == old(self).state().reaction(input)
                        &&& final(self).state() == old(self).state().after(input)
                    },
                None => final(self).state() == old(self).state(),
            },
            old(self).state() == RelayState::Exited ==> final(self).state() == RelayState::Exited
                && action == Some(Ok::<RelayAction<P>, Error>(RelayAction::Exit)),
    {
        if self.state == RelayState::Exited {
            return Some(self.step(RelayInput::ControlClosed));
        }
        match RelayInput::from_control_poll(poll(control)) {
            Some(input) => Some(self.step(input)),
            None => None,
        }
    }

    /// Waits for the next item of the directive queue and deals with it. This is how a
    /// started relay spends its time. A relay that is not started does not touch the
    /// queue: what is in it is for the runtime thread to serve.
    pub fn await_directive<P: Host>(
        &mut self,
        queue: &flume::Receiver<Option<ServerTask<P>>>,
    ) -> (action: Result<RelayAction<P>, Error>)
        ensures
            exists|input: RelayInput<P>|
                {
                    &&& input is Queued || input is QueueClosed
                    &&& action == old(self).state().reaction(input)
                    &&& final(self).state() == old(self).state().after(input)
                },
            old(self).state() != RelayState::Started ==> final(self).state() == old(self).state()
                && action == old(self).state().reaction(RelayInput::<P>::Queued(None)),
    {
        if self.state != RelayState::Started {
            return self.step(RelayInput::Queued(None));
        }
        let input = RelayInput::from_queue(queue.recv());
        self.step(input)
    }

    /// Tells the runtime thread that the handler is done, by putting the empty marker
    /// into the directive queue.
    pub fn handler_done<P: Host>(queue: &flume::Sender<Option<ServerTask<P>>>) -> (told: Result<(), Error>)
        ensures
            told matches Err(e) ==> e == Error::ChannelClosed,
    {
        relayed(queue.send(None))
    }

    /// Deals with what the relay found on one of its channels.
    pub fn step<P: Host>(&mut self, input: RelayInput<P>) -> (action: Result<RelayAction<P>, Error>)
        ensures
            action == old(self).state().reaction(input),
            final(self).state() == old(self).state().after(input),
    {
        match self.state {
            RelayState::Exited => Ok(RelayAction::Exit),
            RelayState::Started => match input {
                RelayInput::Control(DirectiveThreadMessage::Start) => Ok(RelayAction::Idle),
                RelayInput::Control(DirectiveThreadMessage::Stop) => {
                    self.state = RelayState::Stopped;
                    Ok(RelayAction::Idle)
                },
                RelayInput::Control(DirectiveThreadMessage::RunEvent(..)) => {
                    self.state = RelayState::Exited;
                    Err(Error::RunEventWhileStarted)
                },
                RelayInput::Queued(None) => {
                    // this is forcing us to look at the other channel
                    Ok(RelayAction::Idle)
                },
                RelayInput::Queued(Some(srvtask)) => Ok(RelayAction::Forward(srvtask)),
                RelayInput::ControlClosed | RelayInput::QueueClosed => {
                    self.state = RelayState::Exited;
                    Ok(RelayAction::Exit)
                },
            },
            RelayState::Stopped => match input {
                RelayInput::Control(DirectiveThreadMessage::Start) => {
                    self.state = RelayState::Started;
                    Ok(RelayAction::Idle)
                },
                RelayInput::Control(DirectiveThreadMessage::Stop) => Ok(RelayAction::Idle),
                RelayInput::Control(DirectiveThreadMessage::RunEvent(session, event, handler)) => Ok(
                    RelayAction::Run { session, event, handler },
                ),
                RelayInput::Queued(None) => Ok(RelayAction::Idle),
                RelayInput::Queued(Some(srvtask)) => Ok(RelayAction::Deferred(srvtask)),
                RelayInput::ControlClosed | RelayInput::QueueClosed => {
                    self.state = RelayState::Exited;
                    Ok(RelayAction::Exit)
                },
            },
        }
    }
}

} // verus!
