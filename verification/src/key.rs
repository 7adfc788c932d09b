//! Opaque keys that stand for native objects.

use vstd::prelude::*;
use vstd::string::StringExecFns;

verus! {

/// A key that maps to a certain native object.
///
/// A key is the address of the object it stands for, so it is never zero.
#[derive(Copy, Clone, PartialEq, Eq, Structural, PartialOrd, Ord, Hash, Debug)]
pub struct Key {
    // we pretend this opaque address is a key
    key: usize,
}

/// The sign for a number below sixteen as a digit in base sixteen, in upper case.
pub open spec fn hex_digit(digit: nat) -> char {
    if digit == 0 {
        '0'
    } else if digit == 1 {
        '1'
    } else if digit == 2 {
        '2'
    } else if digit == 3 {
        '3'
    } else if digit == 4 {
        '4'
    } else if digit == 5 {
        '5'
    } else if digit == 6 {
        '6'
    } else if digit == 7 {
        '7'
    } else if digit == 8 {
        '8'
    } else if digit == 9 {
        '9'
    } else if digit == 10 {
        'A'
    } else if digit == 11 {
        'B'
    } else if digit == 12 {
        'C'
    } else if digit == 13 {
        'D'
    } else if digit == 14 {
        'E'
    } else {
        'F'
    }
}

/// The digits of a number in base sixteen, the most significant first, without leading
/// zeros. Zero has the one digit `0`.
pub open spec fn hex_digits(n: nat) -> Seq<char>
    decreases n,
{
    if n < 16 {
        seq![hex_digit(n)]
    } else {
        hex_digits(n / 16).push(hex_digit(n % 16))
    }
}

/// The text that describes the key with the given address: the address is written in
/// base sixteen, after `0x`.
pub open spec fn debug_text(addr: usize) -> Seq<char> {
    "Key { key: 0x"@ + hex_digits(addr as nat) + " }"@
}

fn digit_str(digit: usize) -> (text: &'static str)
    requires
        digit < 16,
    ensures
        text@ == seq![hex_digit(digit as nat)],
{
    proof {
        reveal_strlit("0");
        reveal_strlit("1");
        reveal_strlit("2");
        reveal_strlit("3");
        reveal_strlit("4");
        reveal_strlit("5");
        reveal_strlit("6");
        reveal_strlit("7");
        reveal_strlit("8");
        reveal_strlit("9");
        reveal_strlit("A");
        reveal_strlit("B");
        reveal_strlit("C");
        reveal_strlit("D");
        reveal_strlit("E");
        reveal_strlit("F");
    }
    let text = match digit {
        0 => "0",
        1 => "1",
        2 => "2",
        3 => "3",
        4 => "4",
        5 => "5",
        6 => "6",
        7 => "7",
        8 => "8",
        9 => "9",
        10 => "A",
        11 => "B",
        12 => "C",
        13 => "D",
        14 => "E",
        _ => "F",
    };
    assert(text@ =~= seq![hex_digit(digit as nat)]);
    text
}

fn write_hex(n: usize, text: &mut String)
    ensures
        final(text)@ == old(text)@ + hex_digits(n as nat),
    decreases n,
{
    if n >= 16 {
        write_hex(n / 16, text);
    }
    text.append(digit_str(n % 16));
    assert(text@ =~= old(text)@ + hex_digits(n as nat));
}

impl Key {
    #[verifier::type_invariant]
    spec fn nonzero(self) -> bool {
        self.key != 0
    }

    /// The address this key stands for.
    pub closed spec fn addr(self) -> usize {
        self.key
    }

    /// The key that stands for the object at `addr`.
    pub closed spec fn at(addr: usize) -> Key {
        Key { key: addr }
    }

    /// A key is nothing but its address: `at` and `addr` undo each other.
    pub broadcast proof fn lemma_at_addr(addr: usize)
        ensures
            (#[trigger] Key::at(addr)).addr() == addr,
    {
    }

    /// Two keys with the same address are the same key.
    pub proof fn lemma_addr_at(self)
        ensures
            Key::at(self.addr()) == self,
    {
    }

    /// Makes a key out of an address that the caller knows not to be zero.
    pub fn from_raw(key: usize) -> (k: Key)
        requires
            key != 0,
        ensures
            k == Key::at(key),
    {
        Key { key }
    }

    /// The address of the object behind this key. It is never zero.
    pub fn as_ptr(self) -> (ptr: usize)
        ensures
            ptr == self.addr(),
            ptr != 0,
    {
        proof {
            use_type_invariant(&self);
        }
        self.key
    }

    /// A text that describes the key, with its address in base sixteen.
    pub fn debug_string(&self) -> (text: String)
        ensures
            text@ == debug_text(self.addr()),
    {
        let mut text = "Key { key: 0x".to_owned();
        write_hex(self.key, &mut text);
        text.append(" }");
        text
    }

    /// Makes a key out of the address of a live object.
    pub fn from_ptr_nn(ptr: usize) -> (k: Key)
        requires
            ptr != 0,
        ensures
            k == Key::at(ptr),
    {
        Key { key: ptr }
    }

    /// Makes a key out of an address that may be null: the null address has no key.
    pub fn from_ptr(ptr: usize) -> (k: Option<Key>)
        ensures
            ptr == 0 <==> k is None,
            k matches Some(key) ==> key == Key::at(ptr),
    {
        if ptr == 0 {
            None
        } else {
            Some(Key { key: ptr })
        }
    }
}

} // verus!
