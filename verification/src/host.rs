//! The types that a host platform plugs into the runtime.

use vstd::prelude::*;

verus! {

/// The family of types that the runtime carries for its host without reading them.
///
/// A program picks them once, by implementing this trait for a marker type of its own,
/// and every type of the runtime is then parameterised by that marker.
pub trait Host: 'static {
    /// A coordinate or a length, in the host's unit.
    type Coord;

    /// The drawing context that comes with a paint event.
    type Graphics;

    /// A key of the keyboard.
    type KeyboardKey;

    /// What a session registers to be told of its events. The runtime keeps one per
    /// session and hands a copy of it to the relay with every event.
    type Handler: Clone;

    /// What an offloaded piece of work returns.
    type Output: Send;

    /// A piece of work that is offloaded to the runtime thread.
    type Work: FnOnce() -> Self::Output;
}

} // verus!
