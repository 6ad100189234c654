//! The armor-geometry operations.
//!
//! Every function takes and returns Q32.32 fixed-point values (see [`crate::fxp`]).
//! Thicknesses are linear-unit-agnostic; angle parameters named `*_deg` are
//! degrees, those named `*_rad` are radians. Each executable function's
//! result is pinned down exactly by a spec function of the same name, stated
//! over the exact fixed-point arithmetic of [`crate::fxp`] and the named
//! trigonometric results of [`crate::trig`].

use vstd::prelude::*;

verus! {

use crate::DomainError;
use crate::fxp::FX_ONE;
use crate::fxp::clamp_one;
use crate::fxp::clamp_one_spec;
use crate::fxp::div_fx;
use crate::fxp::div_fx_spec;
use crate::fxp::lemma_mul_fx_comm;
use crate::fxp::mul_fx;
use crate::fxp::mul_fx_spec;
use crate::fxp::to_deg;
use crate::fxp::to_deg_spec;
use crate::fxp::to_rad;
use crate::fxp::to_rad_spec;
use crate::trig::acos_fx;
use crate::trig::cos_fx;
use crate::trig::fx_acos;
use crate::trig::fx_cos;
use vstd::arithmetic::div_mod::lemma_div_is_ordered;
use vstd::arithmetic::div_mod::lemma_div_multiples_vanish;

/// The combined angle of incidence of a plate that is both sloped by
/// `primary_rad` and rotated laterally by `secondary_rad`:
/// `acos(cos(primary) * cos(secondary))`, or `DomainError` when the product
/// falls outside `[-1, 1]`. Each cosine is saturated to `[-1, 1]`, the range
/// a real cosine cannot leave, before the product is formed; the product of
/// two such values is again in `[-1, 1]`, so the error branch never fires
/// (see [`lemma_compose_angles_in_domain`]).
pub open spec fn compose_angles_spec(primary_rad: i64, secondary_rad: i64) -> Result<
    i64,
    DomainError,
> {
    let p = mul_fx_spec(
        clamp_one_spec(cos_fx(primary_rad as int)),
        clamp_one_spec(cos_fx(secondary_rad as int)),
    );
    if -FX_ONE <= p <= FX_ONE {
        Ok(acos_fx(p) as i64)
    } else {
        Err(DomainError)
    }
}

/// Combines a primary slope with a secondary (lateral) angle into one
/// equivalent angle of incidence. Operates in RADIANS throughout; it is a
/// caller error to pass degree values.
pub fn compose_angles(primary_rad: i64, secondary_rad: i64) -> (r: Result<i64, DomainError>)
    ensures
        r == compose_angles_spec(primary_rad, secondary_rad),
{
    let ca: i64 = clamp_one(fx_cos(primary_rad));
    let cb: i64 = clamp_one(fx_cos(secondary_rad));
    match mul_fx(ca, cb) {
        None => Err(DomainError),
        Some(p) => {
            if -FX_ONE <= p && p <= FX_ONE {
                let combined: i64 = fx_acos(p);
                proof {
                    assert(acos_fx(p as int) as i64 == combined);
                }
                Ok(combined)
            } else {
                Err(DomainError)
            }
        },
    }
}

/// The line-of-sight thickness of a plate of normal thickness `normal`
/// struck at `incidence_rad`: `normal / cos(incidence)`, or `DomainError`
/// when the cosine is exactly zero or the quotient is unrepresentable. The
/// cosine is saturated to `[-1, 1]`, the range a real cosine cannot leave.
pub open spec fn effective_from_normal_spec(normal: i64, incidence_rad: i64) -> Result<
    i64,
    DomainError,
> {
    let c = clamp_one_spec(cos_fx(incidence_rad as int));
    if c == 0 {
        Err(DomainError)
    } else {
        let e = div_fx_spec(normal as int, c);
        if -i64::MAX <= e <= i64::MAX {
            Ok(e as i64)
        } else {
            Err(DomainError)
        }
    }
}

/// Computes the effective (line-of-sight) thickness a projectile sees.
/// The incidence angle is in RADIANS.
pub fn effective_from_normal(normal: i64, incidence_rad: i64) -> (r: Result<i64, DomainError>)
    ensures
        r == effective_from_normal_spec(normal, incidence_rad),
{
    let c: i64 = clamp_one(fx_cos(incidence_rad));
    if c == 0 {
        Err(DomainError)
    } else {
        match div_fx(normal, c) {
            None => Err(DomainError),
            Some(e) => Ok(e),
        }
    }
}

/// The slope, in degrees, of a plate of normal thickness `normal` that
/// presents the effective thickness `effective`:
/// `acos(normal / effective)` converted to degrees. `DomainError` when
/// `effective` is zero, when the ratio falls outside `[-1, 1]`, or when the
/// degree value is unrepresentable.
pub open spec fn incidence_from_thicknesses_spec(normal: i64, effective: i64) -> Result<
    i64,
    DomainError,
> {
    if effective == 0 {
        Err(DomainError)
    } else {
        let ratio = div_fx_spec(normal as int, effective as int);
        if -FX_ONE <= ratio <= FX_ONE {
            let deg = to_deg_spec(acos_fx(ratio));
            if -i64::MAX <= deg <= i64::MAX {
                Ok(deg as i64)
            } else {
                Err(DomainError)
            }
        } else {
            Err(DomainError)
        }
    }
}

/// Recovers a plate's slope, in DEGREES, from its normal and effective
/// thicknesses.
pub fn incidence_from_thicknesses(normal: i64, effective: i64) -> (r: Result<i64, DomainError>)
    ensures
        r == incidence_from_thicknesses_spec(normal, effective),
{
    if effective == 0 {
        return Err(DomainError);
    }
    match div_fx(normal, effective) {
        None => Err(DomainError),
        Some(ratio) => {
            if -FX_ONE <= ratio && ratio <= FX_ONE {
                let rad: i64 = fx_acos(ratio);
                match to_deg(rad) {
                    None => Err(DomainError),
                    Some(deg) => Ok(deg),
                }
            } else {
                Err(DomainError)
            }
        },
    }
}

/// The normal thickness a plate needs in order to present the effective
/// thickness `effective` at `incidence_deg` degrees:
/// `effective * cos(incidence)`. `DomainError` only when the product is
/// unrepresentable; a zero or negative result is mathematically consistent
/// and returned as-is. The cosine is saturated to `[-1, 1]`, the range a
/// real cosine cannot leave, so a plate is never required to be thicker
/// than the effective thickness it presents.
pub open spec fn normal_from_effective_spec(effective: i64, incidence_deg: i64) -> Result<
    i64,
    DomainError,
> {
    let c = clamp_one_spec(cos_fx(to_rad_spec(incidence_deg as int)));
    let n = mul_fx_spec(effective as int, c);
    if -i64::MAX <= n <= i64::MAX {
        Ok(n as i64)
    } else {
        Err(DomainError)
    }
}

/// Computes the required normal thickness for a given effective thickness
/// and expected angle of incidence. The angle is in DEGREES.
pub fn normal_from_effective(effective: i64, incidence_deg: i64) -> (r: Result<i64, DomainError>)
    ensures
        r == normal_from_effective_spec(effective, incidence_deg),
{
    let rad: i64 = to_rad(incidence_deg);
    let c: i64 = clamp_one(fx_cos(rad));
    match mul_fx(effective, c) {
        None => Err(DomainError),
        Some(n) => Ok(n),
    }
}

/// The angle of incidence, in RADIANS, of a plate sloped by `primary_deg`
/// degrees and optionally rotated laterally by `secondary_deg` degrees.
/// An absent secondary angle means "no lateral rotation": the primary
/// angle alone.
pub open spec fn incidence_angle_spec(primary_deg: i64, secondary_deg: Option<i64>) -> Result<
    i64,
    DomainError,
> {
    match secondary_deg {
        None => Ok(to_rad_spec(primary_deg as int) as i64),
        Some(s) => compose_angles_spec(
            to_rad_spec(primary_deg as int) as i64,
            to_rad_spec(s as int) as i64,
        ),
    }
}

/// Converts a primary slope and an optional secondary angle, both in
/// DEGREES, into the single equivalent angle of incidence in RADIANS.
pub fn incidence_angle(primary_deg: i64, secondary_deg: Option<i64>) -> (r: Result<
    i64,
    DomainError,
>)
    ensures
        r == incidence_angle_spec(primary_deg, secondary_deg),
{
    let a: i64 = to_rad(primary_deg);
    match secondary_deg {
        None => Ok(a),
        Some(s) => {
            let b: i64 = to_rad(s);
            compose_angles(a, b)
        },
    }
}

/// The effective thickness of a plate of normal thickness `normal` sloped
/// by `primary_deg` degrees, with an optional secondary lateral angle in
/// degrees.
pub open spec fn line_of_sight_spec(
    normal: i64,
    primary_deg: i64,
    secondary_deg: Option<i64>,
) -> Result<i64, DomainError> {
    match incidence_angle_spec(primary_deg, secondary_deg) {
        Err(e) => Err(e),
        Ok(i) => effective_from_normal_spec(normal, i),
    }
}

/// Computes the line-of-sight thickness for the full command input: normal
/// thickness, slope in degrees, and an optional secondary angle in degrees.
pub fn line_of_sight(normal: i64, primary_deg: i64, secondary_deg: Option<i64>) -> (r: Result<
    i64,
    DomainError,
>)
    ensures
        r == line_of_sight_spec(normal, primary_deg, secondary_deg),
{
    match incidence_angle(primary_deg, secondary_deg) {
        Err(e) => Err(e),
        Ok(i) => effective_from_normal(normal, i),
    }
}

/// Two true cosines both lie in `[-1, 1]`, so their product does too:
/// composing any two angles always yields a combined angle, never a
/// `DomainError`.
pub proof fn lemma_compose_angles_in_domain(a: i64, b: i64)
    ensures
        compose_angles_spec(a, b) is Ok,
{
    crate::fxp::lemma_mul_fx_unit_range(
        clamp_one_spec(cos_fx(a as int)),
        clamp_one_spec(cos_fx(b as int)),
    );
}

/// Composing two angles of incidence does not depend on their order:
/// `compose_angles(a, b) == compose_angles(b, a)`.
pub proof fn lemma_compose_angles_symmetric(a: i64, b: i64)
    ensures
        compose_angles_spec(a, b) == compose_angles_spec(b, a),
{
    lemma_mul_fx_comm(clamp_one_spec(cos_fx(a as int)), clamp_one_spec(cos_fx(b as int)));
}

/// A plate struck from the front never presents less than its normal
/// thickness: whenever the line-of-sight computation succeeds with a
/// nonnegative result (the saturated cosine was positive), that result is
/// at least the normal thickness, because the divisor is at most one.
pub proof fn lemma_effective_at_least_normal(normal: i64, incidence_rad: i64)
    requires
        normal >= 0,
    ensures
        ({
            let r = effective_from_normal_spec(normal, incidence_rad);
            r matches Ok(e) ==> (e >= 0 ==> e >= normal)
        }),
{
    let c = clamp_one_spec(cos_fx(incidence_rad as int));
    if c != 0 && normal > 0 {
        if c > 0 {
            assert((normal as int) * (FX_ONE as int) >= 0) by (nonlinear_arith)
                requires
                    normal >= 0,
            ;
            vstd::arithmetic::div_mod::lemma_div_is_ordered_by_denominator(
                (normal as int) * (FX_ONE as int),
                c,
                FX_ONE as int,
            );
            lemma_div_multiples_vanish(normal as int, FX_ONE as int);
            assert((normal as int) * (FX_ONE as int) == (FX_ONE as int) * (normal as int))
                by (nonlinear_arith);
        } else {
            assert((normal as int) * (FX_ONE as int) >= FX_ONE) by (nonlinear_arith)
                requires
                    normal >= 1,
            ;
            vstd::arithmetic::div_mod::lemma_div_non_zero(
                (normal as int) * (FX_ONE as int),
                vstd::math::abs(c) as int,
            );
        }
    }
}

/// A normal thickness of at most the effective thickness keeps the ratio
/// handed to the inverse cosine inside `[0, 1]`: the slope computation
/// never rejects such inputs as out of domain, and returns the converted
/// inverse cosine of the ratio whenever that degree value is representable.
pub proof fn lemma_slope_ratio_in_domain(normal: i64, effective: i64)
    requires
        0 <= normal <= effective,
        effective > 0,
    ensures
        0 <= div_fx_spec(normal as int, effective as int) <= FX_ONE,
        ({
            let deg = to_deg_spec(acos_fx(div_fx_spec(normal as int, effective as int)));
            incidence_from_thicknesses_spec(normal, effective) == (if -i64::MAX <= deg
                <= i64::MAX {
                Ok::<i64, DomainError>(deg as i64)
            } else {
                Err::<i64, DomainError>(DomainError)
            })
        }),
{
    let ratio = div_fx_spec(normal as int, effective as int);
    assert(ratio == normal * (FX_ONE as int) / (effective as int));
    assert((normal as int) * (FX_ONE as int) <= (effective as int) * (FX_ONE as int))
        by (nonlinear_arith)
        requires
            0 <= normal <= effective,
    ;
    lemma_div_is_ordered(
        (normal as int) * (FX_ONE as int),
        (effective as int) * (FX_ONE as int),
        effective as int,
    );
    lemma_div_multiples_vanish(FX_ONE as int, effective as int);
    assert((FX_ONE as int) * (effective as int) == (effective as int) * (FX_ONE as int))
        by (nonlinear_arith);
    vstd::arithmetic::div_mod::lemma_div_pos_is_pos(
        (normal as int) * (FX_ONE as int),
        effective as int,
    );
}

/// A normal thickness strictly larger than the effective thickness makes
/// the ratio handed to the inverse cosine exceed one, and the slope
/// computation fails with `DomainError` rather than returning a value.
/// The margin `normal * 2^32 >= effective * (2^32 + 1)` is what "strictly
/// larger" means once the ratio is truncated to Q32.32.
pub proof fn lemma_slope_ratio_above_one_fails(normal: i64, effective: i64)
    requires
        effective > 0,
        normal * FX_ONE >= effective * (FX_ONE + 1),
    ensures
        incidence_from_thicknesses_spec(normal, effective) == Err::<i64, DomainError>(DomainError),
{
    assert(normal > 0) by {
        if normal <= 0 {
            assert(normal * FX_ONE <= 0) by (nonlinear_arith)
                requires
                    normal <= 0,
            ;
            assert(effective * (FX_ONE + 1) > 0) by (nonlinear_arith)
                requires
                    effective > 0,
            ;
        }
    }
    let ratio = div_fx_spec(normal as int, effective as int);
    assert(ratio == normal * (FX_ONE as int) / (effective as int));
    lemma_div_is_ordered(
        (effective as int) * (FX_ONE + 1),
        (normal as int) * (FX_ONE as int),
        effective as int,
    );
    lemma_div_multiples_vanish(FX_ONE + 1, effective as int);
    assert((FX_ONE + 1) * (effective as int) == (effective as int) * (FX_ONE + 1))
        by (nonlinear_arith);
    assert(ratio >= FX_ONE + 1);
}

} // verus!
