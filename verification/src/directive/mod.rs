//! What caller threads ask of the runtime thread.

use crate::error::Error;
use crate::event::Window;
use crate::host::Host;
use crate::key::Key;
use vstd::prelude::*;

pub mod process;

pub use process::Processed;

verus! {

/// How the host keeps the pixels of a window.
#[derive(Debug, Copy, Clone, PartialEq, Eq, Structural)]
pub enum BackingStore {
    Retained,
    Nonretained,
    Buffered,
}

/// One request to the runtime thread.
pub enum Directive<P: Host> {
    /// Run a piece of work on the runtime thread. It needs no session.
    Offload(P::Work),
    /// Stop the runtime thread.
    Quit,
    /// Open a new session.
    RegisterManager,
    CreateWindow {
        x: P::Coord,
        y: P::Coord,
        width: P::Coord,
        height: P::Coord,
        style: u64,
        backing: BackingStore,
        defer: bool,
        screen: Option<Key>,
    },
    Hide(Window),
    Show(Window),
    Close(Window),
    Move { window: Window },
}

/// A directive together with the session it is meant for.
///
/// `manager_id` is the number the session got when it was registered. Directives that
/// need no session carry zero there.
pub struct Submission<P: Host> {
    pub manager_id: usize,
    pub data: Directive<P>,
}

/// What the runtime thread asks of the native backend on behalf of a session.
pub enum Request<P: Host> {
    CreateWindow {
        x: P::Coord,
        y: P::Coord,
        width: P::Coord,
        height: P::Coord,
        style: u64,
        backing: BackingStore,
        defer: bool,
        screen: Option<Key>,
    },
    Hide(Window),
    Show(Window),
    Close(Window),
    Move(Window),
}

/// What the caller of a directive gets back.
pub enum Reply<P: Host> {
    /// The number of the session that was opened.
    Registered(usize),
    /// The window that was created, or why there is none.
    Created(Result<Window, Error>),
    /// The backend did what was asked, or why it did not.
    Done(Result<(), Error>),
    /// What the offloaded work returned.
    Offloaded(P::Output),
}

impl<P: Host> Directive<P> {
    /// Whether the directive acts on a session's windows, so that its session must be known.
    pub open spec fn targets_session(self) -> bool {
        self is CreateWindow || self is Hide || self is Show || self is Close || self is Move
    }

    /// What a directive that acts on a session asks of the backend.
    pub open spec fn request(self) -> Request<P>
        recommends
            self.targets_session(),
    {
        match self {
            Directive::CreateWindow { x, y, width, height, style, backing, defer, screen } => {
                Request::CreateWindow { x, y, width, height, style, backing, defer, screen }
            },
            Directive::Hide(window) => Request::Hide(window),
            Directive::Show(window) => Request::Show(window),
            Directive::Close(window) => Request::Close(window),
            Directive::Move { window } => Request::Move(window),
            _ => arbitrary(),
        }
    }
}

impl<P: Host> Request<P> {
    /// Whether the backend's answer to this request can be turned into a reply.
    ///
    /// The backend answers with the address of what it made, or with its error. Where it
    /// was to create a window and reports no error, the address is that of the window, and
    /// not null.
    pub open spec fn admits(self, outcome: Result<usize, Error>) -> bool {
        self is CreateWindow ==> outcome != Ok::<usize, Error>(0)
    }

    /// The reply that the backend's answer to this request amounts to.
    pub open spec fn reply_for(self, outcome: Result<usize, Error>) -> Reply<P> {
        match self {
            Request::CreateWindow { .. } => match outcome {
                Ok(addr) => Reply::Created(Ok(Key::at(addr))),
                Err(e) => Reply::Created(Err(e)),
            },
            _ => match outcome {
                Ok(_) => Reply::Done(Ok(())),
                Err(e) => Reply::Done(Err(e)),
            },
        }
    }

    /// Whether the answer says that a window was created.
    pub open spec fn created(self, outcome: Result<usize, Error>) -> bool {
        self is CreateWindow && outcome is Ok
    }

    /// The window that the answer says was closed, if it says so of one.
    pub open spec fn closed(self, outcome: Result<usize, Error>) -> Option<Window> {
        match self {
            Request::Close(window) if outcome is Ok => Some(window),
            _ => None,
        }
    }
}

} // verus!
