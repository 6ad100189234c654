//! Armor-geometry calculator core.
//!
//! Given a plate's normal (perpendicular) thickness and its orientation
//! relative to an incoming projectile, these functions compute the effective
//! (line-of-sight) thickness, or invert that relationship to recover the
//! slope or the required normal thickness. Angles cross the public boundary
//! in degrees and are converted to radians before any trigonometry; all
//! quantities are Q32.32 fixed-point values (see [`fxp`]).

use vstd::prelude::*;

pub mod armor;
pub mod fxp;
mod trig;

verus! {

/// Signals that an inverse trigonometric operation was handed an argument
/// outside `[-1, 1]`, that a division was undefined, or that a result does
/// not fit the fixed-point representation.
#[derive(Clone, Copy, Debug, PartialEq, Eq, Structural)]
pub struct DomainError;

} // verus!
