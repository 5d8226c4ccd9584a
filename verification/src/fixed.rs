//! Fixed-point arithmetic shared by the whole crate.
//!
//! Every time and every scalar value in this library is an `i64` counting
//! millionths of a unit, so `FX_ONE` stands for `1.0`. Arithmetic that could
//! leave the representable range saturates to `i64::MIN` / `i64::MAX` instead
//! of failing, which is the library's policy for range violations.

use vstd::prelude::*;

verus! {

/// One whole unit: all times and values are integer counts of millionths.
pub const FX_ONE: i64 = 1_000_000;

/// Half of a unit, used by rounding curves.
pub const FX_HALF: i64 = 500_000;

/// Magnitude of a mathematical integer.
pub open spec fn fx_abs(a: int) -> int {
    if a >= 0 {
        a
    } else {
        -a
    }
}

/// Division truncated toward zero, the behaviour of `/` on machine integers.
pub open spec fn trunc_div(a: int, b: int) -> int
    recommends
        b != 0,
{
    if (a >= 0) == (b >= 0) {
        fx_abs(a) / fx_abs(b)
    } else {
        -(fx_abs(a) / fx_abs(b))
    }
}

/// Saturation to the representable `i64` range.
pub open spec fn sat64(a: int) -> int {
    if a > i64::MAX as int {
        i64::MAX as int
    } else if a < i64::MIN as int {
        i64::MIN as int
    } else {
        a
    }
}

/// Product of two fixed-point numbers, truncated toward zero and saturated.
pub open spec fn fx_mul_spec(a: int, b: int) -> int {
    sat64(trunc_div(a * b, FX_ONE as int))
}

/// Quotient of two fixed-point numbers, truncated toward zero and saturated.
pub open spec fn fx_div_spec(a: int, b: int) -> int
    recommends
        b != 0,
{
    sat64(trunc_div(a * FX_ONE as int, b))
}

/// The scalar blend primitive: `from + (to - from) * t`, with `t` a
/// fixed-point progress fraction, truncated toward zero and saturated.
pub open spec fn blend_spec(from: int, to: int, t: int) -> int {
    sat64(from + trunc_div((to - from) * t, FX_ONE as int))
}

/// Division rounded toward negative infinity (for positive divisors).
pub open spec fn floor_div_spec(a: int, b: int) -> int
    recommends
        b > 0,
{
    if a >= 0 {
        a / b
    } else {
        -((-a + b - 1) / b)
    }
}

/// Floor division with remainder on 128-bit intermediates.
pub(crate) fn floor_div_rem_i128(a: i128, b: i128) -> (r: (i128, i128))
    requires
        b > 0,
        fx_abs(a as int) + b < i128::MAX,
    ensures
        r.0 as int == floor_div_spec(a as int, b as int),
        a as int == r.0 as int * b + r.1 as int,
        0 <= r.1 < b,
{
    if a >= 0 {
        let q: i128 = ((a as u128) / (b as u128)) as i128;
        proof {
            assert((a as int) / (b as int) * (b as int) <= a as int && (a as int) / (b as int) * (
            b as int) > (a as int) - (b as int) && (a as int) / (b as int) >= 0)
                by (nonlinear_arith)
                requires
                    a >= 0,
                    b > 0,
            ;
        }
        let rem: i128 = a - q * b;
        proof {
            assert(a as int == q as int * (b as int) + rem as int);
        }
        (q, rem)
    } else {
        let num: i128 = (-a) + (b - 1);
        let q0: i128 = ((num as u128) / (b as u128)) as i128;
        proof {
            assert((num as int) / (b as int) * (b as int) <= num as int && (num as int) / (
            b as int) * (b as int) > (num as int) - (b as int) && (num as int) / (b as int) >= 0)
                by (nonlinear_arith)
                requires
                    num >= 0,
                    b > 0,
            ;
        }
        let rem: i128 = a + q0 * b;
        proof {
            assert(a as int == (-q0) as int * (b as int) + rem as int) by {
                assert((-q0) as int * (b as int) == -(q0 as int * (b as int))) by (nonlinear_arith);
            };
        }
        (-q0, rem)
    }
}

/// Saturating narrowing from a 128-bit intermediate to `i64`.
pub(crate) fn sat_i128(a: i128) -> (r: i64)
    ensures
        r as int == sat64(a as int),
{
    if a > i64::MAX as i128 {
        i64::MAX
    } else if a < i64::MIN as i128 {
        i64::MIN
    } else {
        a as i64
    }
}

/// Truncated 128-bit division, via unsigned magnitudes.
pub(crate) fn trunc_div_i128(a: i128, b: i128) -> (r: i128)
    requires
        b != 0,
        a > i128::MIN,
        b > i128::MIN,
    ensures
        r as int == trunc_div(a as int, b as int),
        fx_abs(r as int) <= fx_abs(a as int),
{
    let na: u128 = if a >= 0 {
        a as u128
    } else {
        (-a) as u128
    };
    let nb: u128 = if b >= 0 {
        b as u128
    } else {
        (-b) as u128
    };
    let q: u128 = na / nb;
    assert(q <= na) by {
        assert(na / nb <= na) by (nonlinear_arith)
            requires
                nb >= 1,
        ;
    };
    if (a >= 0) == (b >= 0) {
        q as i128
    } else {
        -(q as i128)
    }
}

/// Fixed-point multiplication: `(a * b) / FX_ONE`, saturated.
pub fn fx_mul(a: i64, b: i64) -> (r: i64)
    ensures
        r as int == fx_mul_spec(a as int, b as int),
{
    proof {
        assert((a as int) * (b as int) <= i128::MAX && (a as int) * (b as int) > i128::MIN)
            by (nonlinear_arith)
            requires
                i64::MIN <= a <= i64::MAX,
                i64::MIN <= b <= i64::MAX,
        ;
    }
    let p: i128 = (a as i128) * (b as i128);
    sat_i128(trunc_div_i128(p, 1_000_000))
}

/// Fixed-point division: `(a * FX_ONE) / b`, saturated.
pub fn fx_div(a: i64, b: i64) -> (r: i64)
    requires
        b != 0,
    ensures
        r as int == fx_div_spec(a as int, b as int),
{
    let p: i128 = (a as i128) * 1_000_000;
    sat_i128(trunc_div_i128(p, b as i128))
}

/// The scalar blend primitive on fixed-point numbers.
pub fn fx_blend(from: i64, to: i64, t: i64) -> (r: i64)
    ensures
        r as int == blend_spec(from as int, to as int, t as int),
{
    let d: i128 = (to as i128) - (from as i128);
    proof {
        assert(fx_abs(d * (t as int)) <= ((i64::MAX as int) * 2 + 1) * (i64::MAX as int + 1))
            by (nonlinear_arith)
            requires
                -(i64::MAX as int) * 2 - 1 <= d <= (i64::MAX as int) * 2 + 1,
                i64::MIN <= t <= i64::MAX,
        ;
    }
    let p: i128 = d * (t as i128);
    let q: i128 = trunc_div_i128(p, 1_000_000);
    sat_i128((from as i128) + q)
}

/// Clamps a fixed-point progress value into `[0, FX_ONE]`.
pub open spec fn clamp_unit_spec(t: int) -> int {
    if t < 0 {
        0
    } else if t > FX_ONE as int {
        FX_ONE as int
    } else {
        t
    }
}

/// Scales `dt` out of `span` into a fixed-point fraction of `[0, FX_ONE]`.
pub open spec fn scale_unit_spec(dt: int, span: int) -> int
    recommends
        0 < span,
        0 <= dt <= span,
{
    trunc_div(dt * FX_ONE as int, span)
}

/// Scales `dt` out of `span` into `[0, FX_ONE]`.
pub fn scale_unit(dt: i64, span: i64) -> (r: i64)
    requires
        0 < span,
        0 <= dt <= span,
    ensures
        r as int == scale_unit_spec(dt as int, span as int),
        0 <= r <= FX_ONE,
{
    let p: i128 = (dt as i128) * 1_000_000;
    let q: i128 = trunc_div_i128(p, span as i128);
    proof {
        assert(0 <= (dt as int) * 1_000_000 <= (span as int) * 1_000_000) by (nonlinear_arith)
            requires
                0 <= dt <= span,
        ;
        assert(((dt as int) * 1_000_000) / (span as int) <= ((span as int) * 1_000_000) / (
        span as int)) by (nonlinear_arith)
            requires
                span >= 1,
                0 <= (dt as int) * 1_000_000 <= (span as int) * 1_000_000,
        ;
        assert(((span as int) * 1_000_000) / (span as int) == 1_000_000) by (nonlinear_arith)
            requires
                span >= 1,
        ;
    }
    q as i64
}

} // verus!
