//! The errors this library reports.

use vstd::prelude::*;

verus! {

/// An error returned by this library.
#[derive(Debug, Clone, PartialEq, Eq)]
pub enum Error {
    /// Failed to send directive: the queue towards the runtime thread is full or closed.
    FailedToSendDirective,
    /// The other end of a channel went away: of a task, before it delivered a reply, or of
    /// the channel to the relay.
    ChannelClosed,
    /// A directive named a session that was never registered.
    UnknownSession(usize),
    /// The relay was asked to run an event handler while it was forwarding directives.
    RunEventWhileStarted,
    /// A second runtime thread was asked for in a program that already has one.
    Exclusive,
    /// The native backend raised an exception; the text is the exception's own.
    ObjcException(String),
}

impl Error {
    /// What `message` returns, as a sequence of characters.
    pub open spec fn message_text(self) -> Seq<char> {
        match self {
            Error::FailedToSendDirective => "Failed to send directive to server"@,
            Error::ChannelClosed => "The other end of the channel was dropped"@,
            Error::UnknownSession(_) => "Directive sent to a session that is not registered"@,
            Error::RunEventWhileStarted => "Event handler sent to a relay that was not stopped"@,
            Error::Exclusive => "Cannot create a second ItaosThread in a program"@,
            Error::ObjcException(e) => e@,
        }
    }

    /// Whether the runtime thread cannot go on after this error.
    ///
    /// An unknown session and a handler sent to a running relay are mistakes in the program
    /// that uses the library; the others are handed to the caller, who may go on.
    pub open spec fn fatal(self) -> bool {
        self is UnknownSession || self is RunEventWhileStarted
    }

    /// A text that describes the error.
    pub fn message(&self) -> (text: String)
        ensures
            text@ == self.message_text(),
    {
        match self {
            Error::FailedToSendDirective => "Failed to send directive to server".to_owned(),
            Error::ChannelClosed => "The other end of the channel was dropped".to_owned(),
            Error::UnknownSession(_) => "Directive sent to a session that is not registered".to_owned(),
            Error::RunEventWhileStarted => "Event handler sent to a relay that was not stopped".to_owned(),
            Error::Exclusive => "Cannot create a second ItaosThread in a program".to_owned(),
            Error::ObjcException(e) => e.clone(),
        }
    }

    /// Whether the runtime thread cannot go on after this error.
    pub fn is_fatal(&self) -> (fatal: bool)
        ensures
            fatal == self.fatal(),
    {
        match self {
            Error::UnknownSession(_) => true,
            Error::RunEventWhileStarted => true,
            _ => false,
        }
    }
}

/// The result of an operation of this library.
pub type Result<T = ()> = core::result::Result<T, Error>;

} // verus!
