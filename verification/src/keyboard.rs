//! Keyboard service types.
//!
//! Key presses and releases go out to the peer as plain method calls on
//! the bus; the only state the service exposes back is the set of active
//! lock modifiers, encoded as a bit mask.

use vstd::prelude::*;

verus! {

/// One lock modifier reported by the peer's keyboard.
#[derive(Clone, Copy, Debug, PartialEq, Eq, Structural)]
pub enum KeyboardModifiers {
    Scroll,
    Num,
    Caps,
}

/// The bit a modifier occupies in the peer's modifier mask.
pub open spec fn modifier_bit(m: KeyboardModifiers) -> u32 {
    match m {
        KeyboardModifiers::Scroll => 0x1u32,
        KeyboardModifiers::Num => 0x2u32,
        KeyboardModifiers::Caps => 0x4u32,
    }
}

/// The modifiers set in a mask, in declaration order.
pub open spec fn modifiers_of_bits(bits: u32) -> Seq<KeyboardModifiers> {
    (if bits & 0x1u32 != 0 {
        seq![KeyboardModifiers::Scroll]
    } else {
        Seq::empty()
    }) + (if bits & 0x2u32 != 0 {
        seq![KeyboardModifiers::Num]
    } else {
        Seq::empty()
    }) + (if bits & 0x4u32 != 0 {
        seq![KeyboardModifiers::Caps]
    } else {
        Seq::empty()
    })
}

impl KeyboardModifiers {
    /// The bit this modifier occupies in the peer's modifier mask.
    pub fn bit(self) -> (b: u32)
        ensures
            b == modifier_bit(self),
    {
        match self {
            KeyboardModifiers::Scroll => 0x1,
            KeyboardModifiers::Num => 0x2,
            KeyboardModifiers::Caps => 0x4,
        }
    }
}

/// Decode the peer's modifier mask into the modifiers it sets.
pub fn modifiers_from_bits(bits: u32) -> (r: Vec<KeyboardModifiers>)
    ensures
        r@ == modifiers_of_bits(bits),
{
    let mut v: Vec<KeyboardModifiers> = Vec::new();
    if bits & 0x1 != 0 {
        v.push(KeyboardModifiers::Scroll);
    }
    if bits & 0x2 != 0 {
        v.push(KeyboardModifiers::Num);
    }
    if bits & 0x4 != 0 {
        v.push(KeyboardModifiers::Caps);
    }
    proof {
        assert(v@ =~= modifiers_of_bits(bits));
    }
    v
}

} // verus!
