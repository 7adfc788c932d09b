//! The events that the runtime hands to event handlers.

use crate::host::Host;
use crate::key::Key;
use vstd::prelude::*;

pub mod translate;

pub use translate::translate_nsevent;

verus! {

/// A window, named by its key.
pub type Window = Key;

/// Something that happened to a session and that its handler is told of.
#[derive(Debug)]
pub enum Event<P: Host> {
    /// The last window of the session is gone.
    Quit,
    /// A window was closed.
    Close(Window),
    Paint(Window, P::Graphics),
    ButtonDown { window: Window, button: MouseButton, x: P::Coord, y: P::Coord },
    ButtonUp { window: Window, button: MouseButton, x: P::Coord, y: P::Coord },
    MouseDrag { window: Window, button: MouseButton, x: P::Coord, y: P::Coord },
    MouseMove { window: Window, x: P::Coord, y: P::Coord },
    MouseEntered { window: Window, x: P::Coord, y: P::Coord },
    MouseExited { window: Window, x: P::Coord, y: P::Coord },
    KeyUp { window: Window, key: P::KeyboardKey, modifiers: Modifiers },
    KeyDown { window: Window, key: P::KeyboardKey, modifiers: Modifiers },
}

#[derive(Debug, Copy, Clone, PartialEq, Eq, Structural)]
pub enum MouseButton {
    Left,
    Middle,
    Right,
}

/// The bits of every modifier that `Modifiers` knows.
pub const ALL_MODIFIER_BITS: u32 = 0x1f;

/// The modifier keys that were held down when a key event happened, as a set of flags.
#[derive(Debug, Copy, Clone, PartialEq, Eq, Structural)]
pub struct Modifiers {
    bits: u32,
}

impl Modifiers {
    #[verifier::type_invariant]
    spec fn known_bits_only(self) -> bool {
        self.bits & !ALL_MODIFIER_BITS == 0
    }

    /// The flags as a number: bit 0 is shift, bit 1 control, bit 2 alt, bit 3 caps lock,
    /// bit 4 command.
    pub closed spec fn flags(self) -> u32 {
        self.bits
    }

    /// Whether the flag, or every one of the flags, in `other` is set in `self`.
    pub open spec fn has(self, other: Modifiers) -> bool {
        self.flags() & other.flags() == other.flags()
    }

    pub fn shift() -> (m: Modifiers)
        ensures
            m.flags() == 1,
    {
        assert(1u32 & !0x1fu32 == 0) by (bit_vector);
        Modifiers { bits: 1 }
    }

    pub fn ctrl() -> (m: Modifiers)
        ensures
            m.flags() == 2,
    {
        assert(2u32 & !0x1fu32 == 0) by (bit_vector);
        Modifiers { bits: 2 }
    }

    pub fn alt() -> (m: Modifiers)
        ensures
            m.flags() == 4,
    {
        assert(4u32 & !0x1fu32 == 0) by (bit_vector);
        Modifiers { bits: 4 }
    }

    pub fn caps_lock() -> (m: Modifiers)
        ensures
            m.flags() == 8,
    {
        assert(8u32 & !0x1fu32 == 0) by (bit_vector);
        Modifiers { bits: 8 }
    }

    pub fn command() -> (m: Modifiers)
        ensures
            m.flags() == 16,
    {
        assert(16u32 & !0x1fu32 == 0) by (bit_vector);
        Modifiers { bits: 16 }
    }

    /// The set with no flag.
    pub fn empty() -> (m: Modifiers)
        ensures
            m.flags() == 0,
    {
        assert(0u32 & !0x1fu32 == 0) by (bit_vector);
        Modifiers { bits: 0 }
    }

    /// The set with every flag.
    pub fn all() -> (m: Modifiers)
        ensures
            m.flags() == ALL_MODIFIER_BITS,
    {
        assert(0x1fu32 & !0x1fu32 == 0) by (bit_vector);
        Modifiers { bits: ALL_MODIFIER_BITS }
    }

    /// The flags as a number. No bit above bit 4 is ever set.
    pub fn bits(&self) -> (bits: u32)
        ensures
            bits == self.flags(),
            bits <= ALL_MODIFIER_BITS,
    {
        proof {
            use_type_invariant(self);
            let b = self.bits;
            assert(b & !0x1fu32 == 0 ==> b <= 0x1fu32) by (bit_vector);
        }
        self.bits
    }

    /// The set with exactly the flags in `bits`, unless `bits` holds a bit that stands
    /// for no flag.
    pub fn from_bits(bits: u32) -> (m: Option<Modifiers>)
        ensures
            bits <= ALL_MODIFIER_BITS <==> m is Some,
            m matches Some(set) ==> set.flags() == bits,
    {
        assert(bits & !0x1fu32 == 0 <==> bits <= 0x1fu32) by (bit_vector);
        if bits & !ALL_MODIFIER_BITS == 0 {
            Some(Modifiers { bits })
        } else {
            None
        }
    }

    /// The set with the flags in `bits`; bits that stand for no flag are dropped.
    pub fn from_bits_truncate(bits: u32) -> (m: Modifiers)
        ensures
            m.flags() == bits & ALL_MODIFIER_BITS,
    {
        assert((bits & 0x1fu32) & !0x1fu32 == 0) by (bit_vector);
        Modifiers { bits: bits & ALL_MODIFIER_BITS }
    }

    pub fn is_empty(&self) -> (empty: bool)
        ensures
            empty == (self.flags() == 0),
    {
        self.bits == 0
    }

    /// Whether every flag of `other` is set in `self`.
    pub fn contains(&self, other: Modifiers) -> (within: bool)
        ensures
            within == self.has(other),
    {
        self.bits & other.bits == other.bits
    }

    /// The flags that are set in `self` or in `other`.
    pub fn union(self, other: Modifiers) -> (m: Modifiers)
        ensures
            m.flags() == self.flags() | other.flags(),
            m.has(self),
            m.has(other),
    {
        proof {
            use_type_invariant(&self);
            use_type_invariant(&other);
            let a = self.bits;
            let b = other.bits;
            assert(a & !0x1fu32 == 0 && b & !0x1fu32 == 0 ==> (a | b) & !0x1fu32 == 0)
                by (bit_vector);
            assert((a | b) & a == a && (a | b) & b == b) by (bit_vector);
        }
        Modifiers { bits: self.bits | other.bits }
    }

    /// The flags that are set in both `self` and `other`.
    pub fn intersection(self, other: Modifiers) -> (m: Modifiers)
        ensures
            m.flags() == self.flags() & other.flags(),
            self.has(m),
            other.has(m),
    {
        proof {
            use_type_invariant(&self);
            let a = self.bits;
            let b = other.bits;
            assert(a & !0x1fu32 == 0 ==> (a & b) & !0x1fu32 == 0) by (bit_vector);
            assert(a & (a & b) == a & b && b & (a & b) == a & b) by (bit_vector);
        }
        Modifiers { bits: self.bits & other.bits }
    }

    /// The flags that are set in `self` and not in `other`.
    pub fn difference(self, other: Modifiers) -> (m: Modifiers)
        ensures
            m.flags() == self.flags() & !other.flags(),
            self.has(m),
            m.flags() & other.flags() == 0,
    {
        proof {
            use_type_invariant(&self);
            let a = self.bits;
            let b = other.bits;
            assert(a & !0x1fu32 == 0 ==> (a & !b) & !0x1fu32 == 0) by (bit_vector);
            assert(a & (a & !b) == a & !b && (a & !b) & b == 0) by (bit_vector);
        }
        Modifiers { bits: self.bits & !other.bits }
    }
}

} // verus!
