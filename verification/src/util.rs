//! Small helpers shared by the rest of the crate.

use vstd::prelude::*;

verus! {

/// A value that is carried across threads as it is.
///
/// The wrapper adds nothing to the value: what goes in comes out.
#[derive(Debug, Copy, Clone, Default)]
pub struct ThreadSafe<T>(T);

impl<T> ThreadSafe<T> {
    /// The wrapped value.
    pub closed spec fn inner(self) -> T {
        self.0
    }

    /// Wraps a value.
    pub fn new(val: T) -> (wrapped: Self)
        ensures
            wrapped.inner() == val,
    {
        Self(val)
    }

    /// Takes the value back out.
    pub fn into_inner(self) -> (val: T)
        ensures
            val == self.inner(),
    {
        self.0
    }

    /// Borrows the wrapped value.
    pub fn get(&self) -> (val: &T)
        ensures
            *val == self.inner(),
    {
        &self.0
    }

    /// Replaces the wrapped value and hands back the one it held before.
    pub fn replace(&mut self, val: T) -> (previous: T)
        ensures
            previous == old(self).inner(),
            final(self).inner() == val,
    {
        let mut val = val;
        core::mem::swap(&mut self.0, &mut val);
        val
    }
}

} // verus!
