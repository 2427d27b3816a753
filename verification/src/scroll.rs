//! Zooming by the scroll wheel.
//!
//! Each scroll event multiplies the zoom by a fixed factor, or divides it
//! when the wheel turns the other way. The multiplication itself is
//! arbitrary-precision work of the caller; which way to go is decided here.

use vstd::prelude::*;
use crate::bits::{below_zero, below_zero_wide, is_negative, is_negative_wide};

verus! {

/// The factor of one zoom step, 1.15, as a double-precision bit pattern.
pub const ZOOM_FACTOR: u64 = 0x3FF2_6666_6666_6666;

/// The direction of one zoom step.
#[derive(Clone, Copy, Debug, PartialEq, Eq, Structural)]
pub enum ZoomStep {
    /// The zoom is multiplied by the factor.
    In,
    /// The zoom is divided by the factor.
    Out,
}

/// The step for a scroll by lines, whose vertical amount is a
/// single-precision number: out where it is less than zero, in otherwise.
pub fn step_for_lines(delta_y: u32) -> (step: ZoomStep)
    ensures
        step == (if below_zero(delta_y) {
            ZoomStep::Out
        } else {
            ZoomStep::In
        }),
{
    if is_negative(delta_y) {
        ZoomStep::Out
    } else {
        ZoomStep::In
    }
}

/// The step for a scroll by pixels, whose vertical amount is a
/// double-precision number: out where it is less than zero, in otherwise.
pub fn step_for_pixels(delta_y: u64) -> (step: ZoomStep)
    ensures
        step == (if below_zero_wide(delta_y) {
            ZoomStep::Out
        } else {
            ZoomStep::In
        }),
{
    if is_negative_wide(delta_y) {
        ZoomStep::Out
    } else {
        ZoomStep::In
    }
}

} // verus!
