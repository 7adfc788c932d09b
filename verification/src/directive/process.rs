//! What becomes of a directive on the runtime thread.

use super::{Directive, Reply, Request};
use crate::error::Error;
use crate::host::Host;
use crate::key::Key;
use vstd::prelude::*;

verus! {

/// What the runtime thread has to do for a directive, once it has looked at it.
pub enum Processed<P: Host> {
    /// Nothing is asked of the backend and nobody is answered.
    Finished,
    /// The directive is dealt with, and this is its reply.
    Answered(Reply<P>),
    /// The backend has to act first; its answer decides the reply.
    Pending(Request<P>),
}

impl<P: Host> Directive<P> {
    /// Whether `processed` is what `process` may hand back for this directive.
    ///
    /// Offloaded work is run on the spot and answered with what it returned. A directive
    /// that acts on a session becomes the request that the backend is to carry out.
    /// `Quit` needs nothing further. `RegisterManager` is answered where the sessions are
    /// kept, never here.
    pub open spec fn processes_to(self, processed: Processed<P>) -> bool {
        match self {
            Directive::Offload(work) => processed matches Processed::Answered(Reply::Offloaded(output))
                && call_ensures(work, (), output),
            Directive::Quit => processed is Finished,
            Directive::RegisterManager => false,
            _ => processed == Processed::Pending(self.request()),
        }
    }

    /// Decides what is to be done for this directive, and does it as far as no backend
    /// is needed for it.
    pub fn process(self) -> (processed: Processed<P>)
        requires
            self !is RegisterManager,
            self matches Directive::Offload(work) ==> call_requires(work, ()),
        ensures
            self.processes_to(processed),
    {
        match self {
            Directive::Offload(func) => {
                // we're just offloading some work onto our thread, run it
                let output = func();
                Processed::Answered(Reply::Offloaded(output))
            },
            Directive::Show(window) => Processed::Pending(Request::Show(window)),
            Directive::Hide(window) => Processed::Pending(Request::Hide(window)),
            Directive::Close(window) => Processed::Pending(Request::Close(window)),
            Directive::Move { window } => Processed::Pending(Request::Move(window)),
            Directive::CreateWindow { x, y, width, height, style, backing, defer, screen } => {
                Processed::Pending(
                    Request::CreateWindow { x, y, width, height, style, backing, defer, screen },
                )
            },
            Directive::Quit | Directive::RegisterManager => Processed::Finished,
        }
    }
}

impl<P: Host> Request<P> {
    /// Turns the backend's answer to this request into the reply for the caller.
    ///
    /// A backend that fails still has its caller answered: the reply then carries the
    /// error.
    pub fn reply(&self, outcome: Result<usize, Error>) -> (reply: Reply<P>)
        requires
            self.admits(outcome),
        ensures
            reply == self.reply_for(outcome),
    {
        match self {
            Request::CreateWindow { .. } => match outcome {
                Err(e) => Reply::Created(Err(e)),
                Ok(addr) => Reply::Created(Ok(Key::from_ptr_nn(addr))),
            },
            _ => match outcome {
                Err(e) => Reply::Done(Err(e)),
                Ok(_) => Reply::Done(Ok(())),
            },
        }
    }
}

} // verus!
