//! The push buttons of the device.

use vstd::prelude::*;

verus! {

/// The two push buttons.
#[derive(Debug, Clone, Copy, PartialEq, Eq, Structural)]
pub enum Buttons {
    Yellow,
    Blue,
}

/// The last state seen of a button.
#[derive(Debug, Clone, Copy, PartialEq, Eq, Structural)]
pub enum ButtonState {
    Pressed,
    Released,
}

} // verus!
