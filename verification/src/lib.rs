//! A dispatch kernel for state that may only be touched on one thread.
//!
//! Caller threads describe what they want as directives. One runtime thread owns every
//! session and is the only one to act on them; a relay turns queued directives into
//! wake-ups of that thread, and steps aside while an event handler runs so that the
//! handler can itself send directives and wait for their results.

pub mod directive;
pub mod error;
pub mod event;
pub mod graphics;
pub mod host;
pub mod key;
pub mod lazy_class;
pub mod manager;
pub mod server;
pub mod task;
pub mod util;
pub mod window;

pub use directive::{BackingStore, Directive, Processed, Reply, Request, Submission};
pub use error::Error;
pub use event::{translate_nsevent, Event, Modifiers, MouseButton, Window};
pub use host::Host;
pub use key::Key;
pub use server::{
    ControllerView, ItaosController, ItaosThread, LoopCycle, Occurrence, OneAndDone, Settled,
};
pub use graphics::AppkitSpawner;
pub use lazy_class::LazyClass;
pub use manager::{
    dispatched, relayed, DirectiveThread, DirectiveThreadMessage, GuiThread, ManagerData, RelayAction,
    RelayInput, RelayState, SessionView,
};
pub use task::{create_task, Polled, ServerTask, Task};
pub use util::ThreadSafe;
pub use window::{
    drained, event_finished, next_directive, process_event, send_all, window_should_close,
};
