//! Trusted bindings to fixed-point trigonometry.
//!
//! The cosine and inverse cosine are computed by the `cordic` crate on
//! `fixed::types::I32F32`, whose bit representation is exactly the Q32.32
//! encoding used throughout this library. Both are pure functions of their
//! argument's bits, so their results are given names that the verified
//! contracts speak of exactly.

use fixed::types::I32F32;
use vstd::prelude::*;

verus! {

use crate::fxp::FX_ONE;

/// The value `cordic::cos` returns for the Q32.32 angle `x` (radians).
pub uninterp spec fn cos_fx(x: int) -> int;

/// The value `cordic::acos` returns for the Q32.32 cosine `x`.
pub uninterp spec fn acos_fx(x: int) -> int;

/// Relies on `cordic::cos`: the cosine of a Q32.32 angle in radians,
/// a pure function of the argument's bits.
#[verifier::external_body]
pub(crate) fn fx_cos(x: i64) -> (r: i64)
    ensures
        r == cos_fx(x as int),
{
    cordic::cos(I32F32::from_bits(x)).to_bits()
}

/// Relies on `cordic::acos`: the inverse cosine, in Q32.32 radians, of a
/// Q32.32 value, a pure function of the argument's bits.
#[verifier::external_body]
pub(crate) fn fx_acos(x: i64) -> (r: i64)
    requires
        -FX_ONE <= x <= FX_ONE,
    ensures
        r == acos_fx(x as int),
{
    cordic::acos(I32F32::from_bits(x)).to_bits()
}

} // verus!
