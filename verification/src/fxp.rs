//! Q32.32 fixed-point arithmetic.
//!
//! Thicknesses and angles are carried as `i64` values counting units of
//! `1 / 2^32`. All operations here are exact integer arithmetic with a
//! stated rounding rule (truncation toward zero), so every contract pins
//! the result down completely.

use vstd::prelude::*;

verus! {

use vstd::math::abs;
use vstd::arithmetic::div_mod::lemma_div_is_ordered;
use vstd::arithmetic::div_mod::lemma_div_multiples_vanish;
use vstd::arithmetic::mul::lemma_mul_inequality;

/// One whole unit in Q32.32: values are stored as counts of `1 / 2^32`.
pub const FX_ONE: i64 = 0x1_0000_0000;

/// `pi` in Q32.32, rounded to the nearest representable value.
pub const PI_FX: i64 = 13493037705;

/// 180 whole units in Q32.32, the other leg of the degree/radian conversion.
pub const DEG_180_FX: i64 = 773094113280;

/// Reattach a sign to a magnitude.
pub open spec fn with_sign(negative: bool, magnitude: int) -> int {
    if negative {
        -magnitude
    } else {
        magnitude
    }
}

/// The Q32.32 product of `a` and `b`, truncated toward zero.
pub open spec fn mul_fx_spec(a: int, b: int) -> int {
    with_sign((a < 0) != (b < 0), (abs(a) * abs(b)) as int / (FX_ONE as int))
}

/// The Q32.32 quotient of `n` by `d`, truncated toward zero.
/// Meaningful only for `d != 0`.
pub open spec fn div_fx_spec(n: int, d: int) -> int
    recommends
        d != 0,
{
    with_sign((n < 0) != (d < 0), (abs(n) * (FX_ONE as int)) as int / (abs(d) as int))
}

/// Degrees to radians in Q32.32: multiply by `pi / 180`, truncating toward
/// zero.
pub open spec fn to_rad_spec(deg: int) -> int {
    with_sign(deg < 0, (abs(deg) * (PI_FX as int)) as int / (DEG_180_FX as int))
}

/// Radians to degrees in Q32.32: multiply by `180 / pi`, truncating toward
/// zero.
pub open spec fn to_deg_spec(rad: int) -> int {
    with_sign(rad < 0, (abs(rad) * (DEG_180_FX as int)) as int / (PI_FX as int))
}

/// `x` saturated to `[-1, 1]` in Q32.32.
pub open spec fn clamp_one_spec(x: int) -> int {
    if x > FX_ONE {
        FX_ONE as int
    } else if x < -FX_ONE {
        -FX_ONE as int
    } else {
        x
    }
}

/// Saturates a value to `[-1, 1]`. The cosine of a real angle lies in that
/// interval; the fixed-point routine may overshoot it by a few units of
/// rounding, and the overshoot is cut back to the mathematical range.
pub fn clamp_one(x: i64) -> (r: i64)
    ensures
        r == clamp_one_spec(x as int),
{
    if x > FX_ONE {
        FX_ONE
    } else if x < -FX_ONE {
        -FX_ONE
    } else {
        x
    }
}

/// The product of two values in `[-1, 1]` stays in `[-1, 1]`.
pub proof fn lemma_mul_fx_unit_range(a: int, b: int)
    requires
        -FX_ONE <= a <= FX_ONE,
        -FX_ONE <= b <= FX_ONE,
    ensures
        -FX_ONE <= mul_fx_spec(a, b) <= FX_ONE,
{
    assert(abs(a) <= FX_ONE);
    assert(abs(b) <= FX_ONE);
    assert((abs(a) * abs(b)) as int <= 0x1_0000_0000int * 0x1_0000_0000) by (nonlinear_arith)
        requires
            abs(a) <= 0x1_0000_0000,
            abs(b) <= 0x1_0000_0000,
    ;
    lemma_div_is_ordered(
        (abs(a) * abs(b)) as int,
        0x1_0000_0000int * 0x1_0000_0000,
        FX_ONE as int,
    );
    assert(0x1_0000_0000int * 0x1_0000_0000 / (FX_ONE as int) == FX_ONE);
}

/// Multiplying by one is exact in Q32.32: a secondary angle whose cosine
/// saturates to one leaves the primary cosine unchanged.
pub proof fn lemma_mul_fx_one(x: int)
    ensures
        mul_fx_spec(x, FX_ONE as int) == x,
{
    lemma_div_multiples_vanish(abs(x) as int, FX_ONE as int);
    assert((abs(x) * (FX_ONE as int)) as int == (FX_ONE as int) * (abs(x) as int))
        by (nonlinear_arith);
}

/// The Q32.32 product is symmetric in its operands.
pub proof fn lemma_mul_fx_comm(a: int, b: int)
    ensures
        mul_fx_spec(a, b) == mul_fx_spec(b, a),
{
    assert(abs(a) * abs(b) == abs(b) * abs(a));
}

/// The magnitude of a value, exact even for `i64::MIN`.
fn fx_abs(x: i64) -> (r: u64)
    ensures
        r == abs(x as int),
{
    let w: i128 = x as i128;
    if w < 0 {
        (-w) as u64
    } else {
        x as u64
    }
}

/// Q32.32 multiplication. Returns `None` exactly when the true product does
/// not fit in an `i64` magnitude.
pub fn mul_fx(a: i64, b: i64) -> (r: Option<i64>)
    ensures
        ({
            let m = mul_fx_spec(a as int, b as int);
            &&& r is Some <==> -i64::MAX <= m <= i64::MAX
            &&& (r matches Some(v) ==> v == m)
        }),
{
    let ma: u64 = fx_abs(a);
    let mb: u64 = fx_abs(b);
    proof {
        assert((ma as int) * (mb as int) <= 0x8000000000000000 * 0x8000000000000000) by {
            lemma_mul_inequality(ma as int, 0x8000000000000000, mb as int);
            lemma_mul_inequality(mb as int, 0x8000000000000000, 0x8000000000000000);
        }
    }
    let p: u128 = (ma as u128) * (mb as u128);
    let q: u128 = p / 4294967296u128;
    if q > i64::MAX as u128 {
        None
    } else {
        let v: i64 = q as i64;
        if (a < 0) != (b < 0) {
            Some(-v)
        } else {
            Some(v)
        }
    }
}

/// Q32.32 division. Returns `None` exactly when the true quotient does not
/// fit in an `i64` magnitude.
pub fn div_fx(n: i64, d: i64) -> (r: Option<i64>)
    requires
        d != 0,
    ensures
        ({
            let m = div_fx_spec(n as int, d as int);
            &&& r is Some <==> -i64::MAX <= m <= i64::MAX
            &&& (r matches Some(v) ==> v == m)
        }),
{
    let mn: u64 = fx_abs(n);
    let md: u64 = fx_abs(d);
    proof {
        assert((mn as int) * 4294967296 <= 0x8000000000000000 * 4294967296) by {
            lemma_mul_inequality(mn as int, 0x8000000000000000, 4294967296);
        }
    }
    let p: u128 = (mn as u128) * 4294967296u128;
    let q: u128 = p / (md as u128);
    if q > i64::MAX as u128 {
        None
    } else {
        let v: i64 = q as i64;
        if (n < 0) != (d < 0) {
            Some(-v)
        } else {
            Some(v)
        }
    }
}

/// Degrees to radians in Q32.32. Total: the conversion shrinks magnitudes,
/// so the result always fits.
pub fn to_rad(deg: i64) -> (r: i64)
    ensures
        r == to_rad_spec(deg as int),
{
    let m: u64 = fx_abs(deg);
    proof {
        assert((m as int) * 13493037705 <= 0x8000000000000000 * 13493037705) by {
            lemma_mul_inequality(m as int, 0x8000000000000000, 13493037705);
        }
        lemma_div_is_ordered(
            (m as int) * 13493037705,
            0x8000000000000000int * 13493037705,
            773094113280,
        );
    }
    let p: u128 = (m as u128) * 13493037705u128;
    let q: u128 = p / 773094113280u128;
    let v: i64 = q as i64;
    if deg < 0 {
        -v
    } else {
        v
    }
}

/// Radians to degrees in Q32.32. Returns `None` exactly when the result
/// does not fit in an `i64` magnitude.
pub fn to_deg(rad: i64) -> (r: Option<i64>)
    ensures
        ({
            let m = to_deg_spec(rad as int);
            &&& r is Some <==> -i64::MAX <= m <= i64::MAX
            &&& (r matches Some(v) ==> v == m)
        }),
{
    let m: u64 = fx_abs(rad);
    proof {
        assert((m as int) * 773094113280 <= 0x8000000000000000 * 773094113280) by {
            lemma_mul_inequality(m as int, 0x8000000000000000, 773094113280);
        }
    }
    let p: u128 = (m as u128) * 773094113280u128;
    let q: u128 = p / 13493037705u128;
    if q > i64::MAX as u128 {
        None
    } else {
        let v: i64 = q as i64;
        if rad < 0 {
            Some(-v)
        } else {
            Some(v)
        }
    }
}

} // verus!
