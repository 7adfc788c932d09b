//! Sessions, and the threads that serve them.

use crate::directive::{Directive, Submission};
use crate::error::Error;
use crate::host::Host;
use crate::task::{create_task, ServerTask, Task};
use vstd::prelude::*;

pub mod data;
pub mod thread;

pub use data::{ManagerData, SessionView};
pub use thread::{
    relayed, DirectiveThread, DirectiveThreadMessage, RelayAction, RelayInput, RelayState,
};

verus! {

/// A session's handle on the runtime thread: the means to send it directives.
#[verifier::reject_recursive_types(P)]
pub struct GuiThread<P: Host> {
    sender: flume::Sender<Option<ServerTask<P>>>,
    runtime_id: usize,
}

/// What a try to queue a directive comes to: the directive is on its way, or the queue
/// did not take it, because it is full or because nobody reads it any more.
pub fn dispatched<T>(sent: Result<(), flume::TrySendError<T>>) -> (outcome: Result<(), Error>)
    ensures
        sent is Ok ==> outcome is Ok,
        sent is Err ==> outcome == Err::<(), Error>(Error::FailedToSendDirective),
{
    match sent {
        Ok(()) => Ok(()),
        Err(_) => Err(Error::FailedToSendDirective),
    }
}

impl<P: Host> GuiThread<P> {
    /// The number of the session that this handle speaks for.
    pub closed spec fn id(self) -> usize {
        self.runtime_id
    }

    /// The sending end of the directive queue that this handle sends through.
    pub closed spec fn queue(self) -> flume::Sender<Option<ServerTask<P>>> {
        self.sender
    }

    /// Makes a handle out of the sending end of the directive queue and the number of a
    /// session.
    pub fn from_raw(sender: flume::Sender<Option<ServerTask<P>>>, runtime_id: usize) -> (handle: Self)
        ensures
            handle.id() == runtime_id,
            handle.queue() == sender,
    {
        Self { sender, runtime_id }
    }

    /// Gives up the handle for the sending end of the directive queue.
    pub fn into_inner(self) -> (sender: flume::Sender<Option<ServerTask<P>>>)
        ensures
            sender == self.queue(),
    {
        self.sender
    }

    /// The number of the session that this handle speaks for.
    pub fn runtime_id(&self) -> (runtime_id: usize)
        ensures
            runtime_id == self.id(),
    {
        self.runtime_id
    }

    /// Makes the task for a directive of this session, without sending it.
    pub fn prepare(&self, directive: Directive<P>) -> (halves: (Task<P>, ServerTask<P>))
        ensures
            halves.0.asks() == (Submission { manager_id: self.id(), data: directive }),
            halves.1.held() == Some(Submission { manager_id: self.id(), data: directive }),
    {
        create_task(Submission { manager_id: self.runtime_id, data: directive })
    }

    /// Send a directive.
    ///
    /// The directive is queued under the number of this session, and nothing waits for
    /// room in the queue. What is handed back is the claim on the reply, unless the queue
    /// did not take the directive.
    pub fn send_directive(&self, directive: Directive<P>) -> (task: Result<Task<P>, Error>)
        ensures
            task matches Ok(t) ==> t.asks() == (Submission { manager_id: self.id(), data: directive }),
            task matches Err(e) ==> e == Error::FailedToSendDirective,
    {
        let (t, s) = self.prepare(directive);
        match dispatched(self.sender.try_send(Some(s))) {
            Ok(()) => Ok(t),
            Err(e) => Err(e),
        }
    }
}

} // verus!
