//! Windows and what happens to them.

use crate::directive::{BackingStore, Directive, Submission};
use crate::error::Error;
use crate::host::Host;
use crate::key::Key;
use crate::manager::GuiThread;
use crate::task::Task;
use vstd::prelude::*;

pub mod event;
pub mod laws;
pub mod window;

pub use event::{drained, event_finished, next_directive, process_event, send_all};
pub use window::window_should_close;

verus! {

impl<P: Host> GuiThread<P> {
    /// Asks for a window to be created for this session.
    ///
    /// What is handed back is the claim on the reply, which names the window or says why
    /// there is none; or `Error::FailedToSendDirective` if the directive could not be queued.
    pub fn create_window(
        &self,
        x: P::Coord,
        y: P::Coord,
        width: P::Coord,
        height: P::Coord,
        style: u64,
        backing: BackingStore,
        defer: bool,
        screen: Option<Key>,
    ) -> (task: Result<Task<P>, Error>)
        ensures
            task matches Ok(t) ==> t.asks() == (Submission {
                manager_id: self.id(),
                data: Directive::<P>::CreateWindow { x, y, width, height, style, backing, defer, screen },
            }),
            task matches Err(e) ==> e == Error::FailedToSendDirective,
    {
        self.send_directive(
            Directive::CreateWindow { x, y, width, height, style, backing, defer, screen },
        )
    }
}

} // verus!
