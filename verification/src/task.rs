//! Tasks: a directive on its way to the runtime thread, and the caller's claim on its reply.
//!
//! A task has two halves. The runtime thread gets the `ServerTask`, which holds the
//! directive and is used up when it delivers the reply. The caller keeps the `Task` and
//! waits on it. A `ServerTask` that goes away without delivering anything is noticed by
//! its `Task`, which then reports `Error::ChannelClosed` in place of a reply.

use crate::directive::{Reply, Submission};
use crate::error::Error;
use crate::host::Host;
use vstd::prelude::*;

verus! {

/// The sending half of `orphan_crippler`'s two-way oneshot channel.
#[verifier::external_type_specification]
#[verifier::external_body]
#[verifier::reject_recursive_types(I)]
pub struct ExTwoSender<I>(orphan_crippler::Sender<I>);

/// The receiving half of `orphan_crippler`'s two-way oneshot channel.
#[verifier::external_type_specification]
#[verifier::external_body]
#[verifier::reject_recursive_types(R)]
pub struct ExTwoReceiver<R>(orphan_crippler::Receiver<R>);

/// The sending end of a `flume` channel.
#[verifier::external_type_specification]
#[verifier::external_body]
#[verifier::reject_recursive_types(T)]
pub struct ExQueueSender<T>(flume::Sender<T>);

/// The receiving end of a `flume` channel.
#[verifier::external_type_specification]
#[verifier::external_body]
#[verifier::reject_recursive_types(T)]
pub struct ExQueueReceiver<T>(flume::Receiver<T>);

/// Why `flume` did not take a message: it gives the message back.
#[verifier::external_type_specification]
#[verifier::external_body]
#[verifier::reject_recursive_types(T)]
pub struct ExSendError<T>(flume::SendError<T>);

/// Why `flume` did not take a message at once: it gives the message back.
#[verifier::external_type_specification]
#[verifier::external_body]
#[verifier::reject_recursive_types(T)]
pub struct ExTrySendError<T>(flume::TrySendError<T>);

/// Why `flume` has no message to give: every sender is gone and nothing is left.
#[verifier::external_type_specification]
#[verifier::external_body]
pub struct ExRecvError(flume::RecvError);

/// `flume::unbounded` makes the two ends of a new channel. Nothing is claimed of them.
pub assume_specification<T>[ flume::unbounded::<T> ]() -> (ends: (
    flume::Sender<T>,
    flume::Receiver<T>,
));

/// `flume::Sender::send` puts a message into the channel, or gives it back if no receiver
/// is left. Nothing is claimed of which of the two happens: that lies with other threads.
pub assume_specification<T>[ flume::Sender::<T>::send ](
    sender: &flume::Sender<T>,
    msg: T,
) -> (sent: std::result::Result<(), flume::SendError<T>>);

/// `flume::Sender::try_send` puts a message into the channel without waiting, or gives it
/// back if the channel is full or no receiver is left. Nothing is claimed of which happens.
pub assume_specification<T>[ flume::Sender::<T>::try_send ](
    sender: &flume::Sender<T>,
    msg: T,
) -> (sent: std::result::Result<(), flume::TrySendError<T>>);

/// `flume::Receiver::recv` waits for the next message of the channel, and fails once every
/// sender is gone and nothing is left. Nothing is claimed of which message comes.
pub assume_specification<T>[ flume::Receiver::<T>::recv ](receiver: &flume::Receiver<T>) -> (got:
    std::result::Result<T, flume::RecvError>);

/// What a look into a channel found, without waiting.
pub enum Polled<T> {
    /// The next message of the channel.
    Message(T),
    /// No message is there right now.
    Empty,
    /// No message is there and none will come: every sender is gone.
    Closed,
}

/// Calls `flume::Receiver::try_recv`, which takes the next message of the channel if one
/// is there and fails at once if none is, and says for which of its two reasons it
/// failed. Nothing is claimed of what is found: that lies with other threads.
#[verifier::external_body]
pub(crate) fn poll<T>(receiver: &flume::Receiver<T>) -> (found: Polled<T>) {
    match receiver.try_recv() {
        Ok(message) => Polled::Message(message),
        Err(flume::TryRecvError::Empty) => Polled::Empty,
        Err(flume::TryRecvError::Disconnected) => Polled::Closed,
    }
}

/// The caller's half of a task: a claim on the reply to one directive.
#[verifier::reject_recursive_types(P)]
pub struct Task<P: Host> {
    // where the reply arrives
    result: orphan_crippler::Receiver<Reply<P>>,
    // gets one message once the reply is there, and is cut off if none will come
    finished: flume::Receiver<()>,
    // the directive that this is the claim on the reply to
    asked: Ghost<Submission<P>>,
}

/// The runtime thread's half of a task: the directive, and the means to answer it once.
#[verifier::reject_recursive_types(P)]
pub struct ServerTask<P: Host> {
    // the directive, until the runtime thread takes it
    submission: Option<Submission<P>>,
    // where the reply goes; its other end is a receiver of `Reply<P>`
    sender: orphan_crippler::Sender<()>,
    // tells the caller that the reply is there; dropped unused, it tells that none will come
    finished: flume::Sender<()>,
}

/// Calls `orphan_crippler::two` for a channel that carries one `Reply<P>`. It returns the
/// two halves of a new channel; nothing more is claimed of them.
#[verifier::external_body]
#[allow(deprecated)]
fn two_way<P: Host>() -> (halves: (orphan_crippler::Sender<()>, orphan_crippler::Receiver<Reply<P>>)) {
    orphan_crippler::two::<(), Reply<P>>(())
}

/// Calls `orphan_crippler::Sender::send` with the reply, and hands back the task's signal.
///
/// `send` panics where the other half expects another type than the one sent. The other
/// half of a `ServerTask<P>` is made together with it, by `two_way::<P>`, and expects a
/// `Reply<P>`.
#[verifier::external_body]
#[allow(deprecated)]
fn deliver<P: Host>(task: ServerTask<P>, reply: Reply<P>) -> (finished: flume::Sender<()>) {
    let ServerTask { sender, finished, .. } = task;
    sender.send::<Reply<P>>(reply);
    finished
}

/// Calls `Future::poll` of `orphan_crippler::Receiver` once, with a waker that does
/// nothing. `poll` hands out what the other half sent, if it has sent, and says
/// otherwise that nothing is there; it never waits. Nothing is claimed of which of the
/// two happens.
#[verifier::external_body]
#[allow(deprecated)]
fn receive<P: Host>(result: orphan_crippler::Receiver<Reply<P>>) -> (reply: Option<Reply<P>>) {
    let mut result = Box::pin(result);
    let mut context = std::task::Context::from_waker(std::task::Waker::noop());
    match std::future::Future::poll(result.as_mut(), &mut context) {
        std::task::Poll::Ready(reply) => Some(reply),
        std::task::Poll::Pending => None,
    }
}

/// Create the two halves of the task for a directive: the claim on the reply to the
/// directive, and the half that holds the directive and answers it.
pub fn create_task<P: Host>(dir: Submission<P>) -> (halves: (Task<P>, ServerTask<P>))
    ensures
        halves.0.asks() == dir,
        halves.1.held() == Some(dir),
{
    let (sender, result) = two_way::<P>();
    let (signal, finished) = flume::unbounded::<()>();
    (
        Task { result, finished, asked: Ghost(dir) },
        ServerTask { submission: Some(dir), sender, finished: signal },
    )
}

/// What a wait on a task comes to, given what became of the wait for its signal: the
/// reply is there if the signal came, and the task is closed if the signal never will.
pub fn signalled(signal: Result<(), flume::RecvError>) -> (outcome: Result<(), Error>)
    ensures
        signal is Ok ==> outcome is Ok,
        signal is Err ==> outcome == Err::<(), Error>(Error::ChannelClosed),
{
    match signal {
        Ok(()) => Ok(()),
        Err(_) => Err(Error::ChannelClosed),
    }
}

/// What a wait on a task comes to, given what was found where the reply arrives: the
/// reply, or the word that the task is closed if no reply is there.
pub fn resolved<P: Host>(found: Option<Reply<P>>) -> (outcome: Result<Reply<P>, Error>)
    ensures
        outcome == match found {
            Some(reply) => Ok::<Reply<P>, Error>(reply),
            None => Err::<Reply<P>, Error>(Error::ChannelClosed),
        },
{
    match found {
        Some(reply) => Ok(reply),
        None => Err(Error::ChannelClosed),
    }
}

impl<P: Host> ServerTask<P> {
    /// The directive that the task still holds.
    pub closed spec fn held(self) -> Option<Submission<P>> {
        self.submission
    }

    /// Takes the directive out of the task. A task gives its directive once.
    pub fn input(&mut self) -> (dir: Option<Submission<P>>)
        ensures
            dir == old(self).held(),
            final(self).held() is None,
    {
        self.submission.take()
    }

    /// Delivers the reply to the caller's half and uses the task up, so that no task is
    /// completed twice. The reply is delivered first and the caller is told afterwards, so
    /// that a caller who was told finds the reply.
    pub fn complete(self, reply: Reply<P>) {
        let finished = deliver(self, reply);
        // nobody waits if the caller's half is gone, and then nobody is told
        let _ = finished.send(());
    }
}

impl<P: Host> Task<P> {
    /// The directive that this is the claim on the reply to.
    pub closed spec fn asks(self) -> Submission<P> {
        self.asked@
    }

    /// Where the reply arrives.
    pub closed spec fn reply_end(self) -> orphan_crippler::Receiver<Reply<P>> {
        self.result
    }

    /// Where the signal arrives that the reply is there.
    pub closed spec fn signal_end(self) -> flume::Receiver<()> {
        self.finished
    }

    /// Takes the claim apart, for those who wait in a way of their own: first the end at
    /// which the reply arrives, then the end at which the signal arrives that it is
    /// there. The first has the reply once the second has yielded its message.
    pub fn into_parts(self) -> (parts: (orphan_crippler::Receiver<Reply<P>>, flume::Receiver<()>))
        ensures
            parts.0 == self.reply_end(),
            parts.1 == self.signal_end(),
    {
        let Task { result, finished, .. } = self;
        (result, finished)
    }

    /// Waits until the reply is there, or until it is known that none will come.
    ///
    /// The wait ends with exactly one of the two: the reply, or `Error::ChannelClosed`
    /// when the other half was dropped before it delivered anything. The wait is for the
    /// signal only: where the reply arrives is looked at once, after the signal came, and
    /// never waited on.
    pub fn wait(self) -> (reply: Result<Reply<P>, Error>)
        ensures
            reply matches Err(e) ==> e == Error::ChannelClosed,
    {
        let Task { result, finished, .. } = self;
        match signalled(finished.recv()) {
            Ok(()) => resolved(receive(result)),
            Err(e) => Err(e),
        }
    }
}

} // verus!
