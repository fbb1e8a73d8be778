//! The input device state, as sampled once per rendered frame.

use crate::math::Scalar;
use vstd::prelude::*;

verus! {

/// Where a button stands in this frame.
#[derive(Clone, Copy, Debug, PartialEq, Eq, Structural)]
pub enum ButtonState {
    /// Up, and up in the frame before.
    Released,
    /// Down, and up in the frame before.
    JustPressed,
    /// Down, and down in the frame before.
    Pressed,
    /// Up, and down in the frame before.
    JustReleased,
}

/// The state of the three movement inputs in one frame.
#[derive(Clone, Copy, Debug, PartialEq, Eq, Structural)]
pub struct ActionState {
    /// The move axis: left is negative, right positive, full deflection one.
    pub direction: Scalar,
    pub jump: ButtonState,
    pub walk: ButtonState,
}

} // verus!
