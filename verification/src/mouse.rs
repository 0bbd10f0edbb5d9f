//! Mouse service types.
//!
//! Button presses, releases and pointer motion go out to the peer as
//! plain method calls on the bus; this module holds the button taxonomy
//! those calls speak of.

use vstd::prelude::*;

verus! {

/// A pointer button, in the order the wire protocol numbers them.
#[derive(Clone, Copy, Debug, PartialEq, Eq, Hash, Structural)]
pub enum MouseButton {
    Left,
    Middle,
    Right,
    WheelUp,
    WheelDown,
    Side,
    Extra,
}

/// The buttons a front-end's numbered button maps to: the first three
/// are the classic buttons, everything else is reported as an extra
/// button.
pub fn button_from_number(n: u32) -> (b: MouseButton)
    ensures
        n == 1 ==> b == MouseButton::Left,
        n == 2 ==> b == MouseButton::Middle,
        n == 3 ==> b == MouseButton::Right,
        !(1 <= n <= 3) ==> b == MouseButton::Extra,
{
    match n {
        1 => MouseButton::Left,
        2 => MouseButton::Middle,
        3 => MouseButton::Right,
        _ => MouseButton::Extra,
    }
}

} // verus!
