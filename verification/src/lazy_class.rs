//! A class of the host that is made when it is first asked for.

use crate::key::Key;
use vstd::prelude::*;

verus! {

/// A slot for a class of the host, empty until the class is asked for.
pub struct LazyClass {
    // the internal class
    class: Option<Key>,
}

impl LazyClass {
    /// The class in the slot, if it was made already.
    pub closed spec fn class(self) -> Option<Key> {
        self.class
    }

    /// An empty slot.
    pub fn new() -> (slot: Self)
        ensures
            slot.class() is None,
    {
        Self { class: None }
    }

    /// The class in the slot. If the slot is empty, `f` makes the class first, and the
    /// slot keeps it; `f` is not called for a slot that holds a class.
    pub fn get_or_init<F: FnOnce() -> Key>(&mut self, f: F) -> (class: Key)
        requires
            old(self).class() is None ==> call_requires(f, ()),
        ensures
            final(self).class() == Some(class),
            old(self).class() matches Some(kept) ==> class == kept,
            old(self).class() is None ==> call_ensures(f, (), class),
    {
        match self.class {
            None => {
                let p = f();
                self.class = Some(p);
                p
            },
            Some(p) => p,
        }
    }
}

} // verus!
