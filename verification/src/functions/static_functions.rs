//! The static curve catalog: parameter-free easing functions, each a pure
//! fixed-point formula over the progress axis.
//!
//! Each formula is written with the saturating fixed-point primitives, so
//! every curve is total over all of `i64`; on the interesting range
//! `[0, FX_ONE]` no saturation ever occurs.

use vstd::prelude::*;

use crate::easing::CanTween;
use crate::easing::EasingFunction;
use crate::easing::ease;
use crate::easing::ease_spec;
use crate::fixed::FX_HALF;
use crate::fixed::FX_ONE;
use crate::fixed::fx_mul;
use crate::fixed::fx_mul_spec;
use crate::fixed::sat64;
use crate::fixed::sat_i128;
use crate::fixed::trunc_div_i128;

verus! {

/// `y = x`.
pub open spec fn linear_y_spec(x: int) -> int {
    x
}

/// `y = round(x)`, rounding half away from zero to the nearest whole unit.
pub open spec fn step_y_spec(x: int) -> int {
    if x >= 0 {
        sat64(((x + FX_HALF as int) / (FX_ONE as int)) * FX_ONE as int)
    } else {
        sat64(-(((-x + FX_HALF as int) / (FX_ONE as int)) * FX_ONE as int))
    }
}

/// `y = 0`.
pub open spec fn hold_y_spec(x: int) -> int {
    0
}

/// `y = x^2`.
pub open spec fn quad_in_y_spec(x: int) -> int {
    fx_mul_spec(x, x)
}

/// `y = x * (2 - x)`.
pub open spec fn quad_out_y_spec(x: int) -> int {
    fx_mul_spec(x, sat64(2 * FX_ONE as int - x))
}

/// `y = 2x^2` below the halfway point, `-1 + (4 - 2x) * x` above it.
pub open spec fn quad_in_out_y_spec(x: int) -> int {
    if x < FX_HALF as int {
        sat64(2 * fx_mul_spec(x, x))
    } else {
        sat64(-(FX_ONE as int) + fx_mul_spec(sat64(4 * FX_ONE as int - 2 * x), x))
    }
}

/// `y = x^3`.
pub open spec fn cubic_in_y_spec(x: int) -> int {
    fx_mul_spec(fx_mul_spec(x, x), x)
}

/// `y = 1 + (x - 1)^3`.
pub open spec fn cubic_out_y_spec(x: int) -> int {
    sat64(FX_ONE as int + cubic_in_y_spec(sat64(x - FX_ONE as int)))
}

/// `y = 4x^3` below the halfway point, `(x - 1) * (2x - 2)^2 + 1` above it.
pub open spec fn cubic_in_out_y_spec(x: int) -> int {
    if x < FX_HALF as int {
        sat64(4 * cubic_in_y_spec(x))
    } else {
        sat64(
            fx_mul_spec(
                fx_mul_spec(sat64(x - FX_ONE as int), sat64(2 * x - 2 * FX_ONE as int)),
                sat64(2 * x - 2 * FX_ONE as int),
            ) + FX_ONE as int,
        )
    }
}

/// `y = x^4`.
pub open spec fn quart_in_y_spec(x: int) -> int {
    fx_mul_spec(cubic_in_y_spec(x), x)
}

/// `y = 1 - (x - 1)^4`.
pub open spec fn quart_out_y_spec(x: int) -> int {
    sat64(FX_ONE as int - quart_in_y_spec(sat64(x - FX_ONE as int)))
}

/// `y = 8x^4` below the halfway point, `1 - 8 * (x - 1)^4` above it.
pub open spec fn quart_in_out_y_spec(x: int) -> int {
    if x < FX_HALF as int {
        sat64(8 * quart_in_y_spec(x))
    } else {
        sat64(FX_ONE as int - 8 * quart_in_y_spec(sat64(x - FX_ONE as int)))
    }
}

/// `y = x^5`.
pub open spec fn quint_in_y_spec(x: int) -> int {
    fx_mul_spec(quart_in_y_spec(x), x)
}

/// `y = 1 + (x - 1)^5`.
pub open spec fn quint_out_y_spec(x: int) -> int {
    sat64(FX_ONE as int + quint_in_y_spec(sat64(x - FX_ONE as int)))
}

/// `y = 16x^5` below the halfway point, `1 + 16 * (x - 1)^5` above it.
pub open spec fn quint_in_out_y_spec(x: int) -> int {
    if x < FX_HALF as int {
        sat64(16 * quint_in_y_spec(x))
    } else {
        sat64(FX_ONE as int + 16 * quint_in_y_spec(sat64(x - FX_ONE as int)))
    }
}

/// Computes `step_y_spec`.
pub fn step_y(x: i64) -> (r: i64)
    ensures
        r as int == step_y_spec(x as int),
{
    if x >= 0 {
        let q: i128 = trunc_div_i128((x as i128) + 500_000, 1_000_000);
        sat_i128(q * 1_000_000)
    } else {
        let q: i128 = trunc_div_i128(-(x as i128) + 500_000, 1_000_000);
        sat_i128(-(q * 1_000_000))
    }
}

/// Computes `quad_in_y_spec`.
pub fn quad_in_y(x: i64) -> (r: i64)
    ensures
        r as int == quad_in_y_spec(x as int),
{
    fx_mul(x, x)
}

/// Computes `quad_out_y_spec`.
pub fn quad_out_y(x: i64) -> (r: i64)
    ensures
        r as int == quad_out_y_spec(x as int),
{
    let b: i64 = sat_i128(2_000_000 - (x as i128));
    fx_mul(x, b)
}

/// Computes `quad_in_out_y_spec`.
pub fn quad_in_out_y(x: i64) -> (r: i64)
    ensures
        r as int == quad_in_out_y_spec(x as int),
{
    if x < FX_HALF {
        let m: i64 = fx_mul(x, x);
        sat_i128(2 * (m as i128))
    } else {
        let a: i64 = sat_i128(4_000_000 - 2 * (x as i128));
        let m: i64 = fx_mul(a, x);
        sat_i128(-1_000_000 + (m as i128))
    }
}

/// Computes `cubic_in_y_spec`.
pub fn cubic_in_y(x: i64) -> (r: i64)
    ensures
        r as int == cubic_in_y_spec(x as int),
{
    fx_mul(fx_mul(x, x), x)
}

/// Computes `cubic_out_y_spec`.
pub fn cubic_out_y(x: i64) -> (r: i64)
    ensures
        r as int == cubic_out_y_spec(x as int),
{
    let m: i64 = sat_i128((x as i128) - 1_000_000);
    sat_i128(1_000_000 + (cubic_in_y(m) as i128))
}

/// Computes `cubic_in_out_y_spec`.
pub fn cubic_in_out_y(x: i64) -> (r: i64)
    ensures
        r as int == cubic_in_out_y_spec(x as int),
{
    if x < FX_HALF {
        sat_i128(4 * (cubic_in_y(x) as i128))
    } else {
        let m: i64 = sat_i128((x as i128) - 1_000_000);
        let s: i64 = sat_i128(2 * (x as i128) - 2_000_000);
        sat_i128((fx_mul(fx_mul(m, s), s) as i128) + 1_000_000)
    }
}

/// Computes `quart_in_y_spec`.
pub fn quart_in_y(x: i64) -> (r: i64)
    ensures
        r as int == quart_in_y_spec(x as int),
{
    fx_mul(cubic_in_y(x), x)
}

/// Computes `quart_out_y_spec`.
pub fn quart_out_y(x: i64) -> (r: i64)
    ensures
        r as int == quart_out_y_spec(x as int),
{
    let m: i64 = sat_i128((x as i128) - 1_000_000);
    sat_i128(1_000_000 - (quart_in_y(m) as i128))
}

/// Computes `quart_in_out_y_spec`.
pub fn quart_in_out_y(x: i64) -> (r: i64)
    ensures
        r as int == quart_in_out_y_spec(x as int),
{
    if x < FX_HALF {
        sat_i128(8 * (quart_in_y(x) as i128))
    } else {
        let m: i64 = sat_i128((x as i128) - 1_000_000);
        sat_i128(1_000_000 - 8 * (quart_in_y(m) as i128))
    }
}

/// Computes `quint_in_y_spec`.
pub fn quint_in_y(x: i64) -> (r: i64)
    ensures
        r as int == quint_in_y_spec(x as int),
{
    fx_mul(quart_in_y(x), x)
}

/// Computes `quint_out_y_spec`.
pub fn quint_out_y(x: i64) -> (r: i64)
    ensures
        r as int == quint_out_y_spec(x as int),
{
    let m: i64 = sat_i128((x as i128) - 1_000_000);
    sat_i128(1_000_000 + (quint_in_y(m) as i128))
}

/// Computes `quint_in_out_y_spec`.
pub fn quint_in_out_y(x: i64) -> (r: i64)
    ensures
        r as int == quint_in_out_y_spec(x as int),
{
    if x < FX_HALF {
        sat_i128(16 * (quint_in_y(x) as i128))
    } else {
        let m: i64 = sat_i128((x as i128) - 1_000_000);
        sat_i128(1_000_000 + 16 * (quint_in_y(m) as i128))
    }
}

/// Linear interpolation from point A to point B.
/// Time is limited to a range between `0` and `FX_ONE`.
pub fn linear<V: CanTween>(from: V, to: V, time: i64) -> (r: V)
    ensures
        r == ease_spec(Linear, from, to, time as int),
{
    ease(&Linear, from, to, time)
}

/// The value at X position `time` on an accelerating (cubic) curve between
/// point A and point B. Time is limited to a range between `0` and `FX_ONE`.
pub fn ease_in<V: CanTween>(from: V, to: V, time: i64) -> (r: V)
    ensures
        r == ease_spec(EaseIn, from, to, time as int),
{
    ease(&EaseIn, from, to, time)
}

/// The value at X position `time` on a decelerating (cubic) curve between
/// point A and point B. Time is limited to a range between `0` and `FX_ONE`.
pub fn ease_out<V: CanTween>(from: V, to: V, time: i64) -> (r: V)
    ensures
        r == ease_spec(EaseOut, from, to, time as int),
{
    ease(&EaseOut, from, to, time)
}

/// The value at X position `time` on an accelerating then decelerating
/// (cubic) curve between point A and point B. Time is limited to a range
/// between `0` and `FX_ONE`.
pub fn ease_in_out<V: CanTween>(from: V, to: V, time: i64) -> (r: V)
    ensures
        r == ease_spec(EaseInOut, from, to, time as int),
{
    ease(&EaseInOut, from, to, time)
}

/// Linear interpolation from point A to point B.
#[derive(Copy, Clone, Debug, Default)]
pub struct Linear;

impl EasingFunction for Linear {
    open spec fn y_spec(&self, x: int) -> int {
        linear_y_spec(x)
    }

    fn y(&self, x: i64) -> (r: i64) {
        x
    }
}

/// Step function, returns the closest of point A and point B.
#[derive(Copy, Clone, Debug, Default)]
pub struct Step;

impl EasingFunction for Step {
    open spec fn y_spec(&self, x: int) -> int {
        step_y_spec(x)
    }

    fn y(&self, x: i64) -> (r: i64) {
        step_y(x)
    }
}

/// Hold function, always returns point A.
#[derive(Copy, Clone, Debug, Default)]
pub struct Hold;

impl EasingFunction for Hold {
    open spec fn y_spec(&self, x: int) -> int {
        hold_y_spec(x)
    }

    fn y(&self, x: i64) -> (r: i64) {
        0
    }
}

/// Accelerating quadratically from point A to point B.
#[derive(Copy, Clone, Debug, Default)]
pub struct EaseInQuad;

impl EasingFunction for EaseInQuad {
    open spec fn y_spec(&self, x: int) -> int {
        quad_in_y_spec(x)
    }

    fn y(&self, x: i64) -> (r: i64) {
        quad_in_y(x)
    }
}

/// Decelerating quadratically from point A to point B.
#[derive(Copy, Clone, Debug, Default)]
pub struct EaseOutQuad;

impl EasingFunction for EaseOutQuad {
    open spec fn y_spec(&self, x: int) -> int {
        quad_out_y_spec(x)
    }

    fn y(&self, x: i64) -> (r: i64) {
        quad_out_y(x)
    }
}

/// Accelerating then decelerating quadratically from point A to point B.
#[derive(Copy, Clone, Debug, Default)]
pub struct EaseInOutQuad;

impl EasingFunction for EaseInOutQuad {
    open spec fn y_spec(&self, x: int) -> int {
        quad_in_out_y_spec(x)
    }

    fn y(&self, x: i64) -> (r: i64) {
        quad_in_out_y(x)
    }
}

/// Accelerating cubically from point A to point B.
#[derive(Copy, Clone, Debug, Default)]
pub struct EaseInCubic;

impl EasingFunction for EaseInCubic {
    open spec fn y_spec(&self, x: int) -> int {
        cubic_in_y_spec(x)
    }

    fn y(&self, x: i64) -> (r: i64) {
        cubic_in_y(x)
    }
}

/// Decelerating cubically from point A to point B.
#[derive(Copy, Clone, Debug, Default)]
pub struct EaseOutCubic;

impl EasingFunction for EaseOutCubic {
    open spec fn y_spec(&self, x: int) -> int {
        cubic_out_y_spec(x)
    }

    fn y(&self, x: i64) -> (r: i64) {
        cubic_out_y(x)
    }
}

/// Accelerating then decelerating cubically from point A to point B.
#[derive(Copy, Clone, Debug, Default)]
pub struct EaseInOutCubic;

impl EasingFunction for EaseInOutCubic {
    open spec fn y_spec(&self, x: int) -> int {
        cubic_in_out_y_spec(x)
    }

    fn y(&self, x: i64) -> (r: i64) {
        cubic_in_out_y(x)
    }
}

/// Accelerating quartically from point A to point B.
#[derive(Copy, Clone, Debug, Default)]
pub struct EaseInQuart;

impl EasingFunction for EaseInQuart {
    open spec fn y_spec(&self, x: int) -> int {
        quart_in_y_spec(x)
    }

    fn y(&self, x: i64) -> (r: i64) {
        quart_in_y(x)
    }
}

/// Decelerating quartically from point A to point B.
#[derive(Copy, Clone, Debug, Default)]
pub struct EaseOutQuart;

impl EasingFunction for EaseOutQuart {
    open spec fn y_spec(&self, x: int) -> int {
        quart_out_y_spec(x)
    }

    fn y(&self, x: i64) -> (r: i64) {
        quart_out_y(x)
    }
}

/// Accelerating then decelerating quartically from point A to point B.
#[derive(Copy, Clone, Debug, Default)]
pub struct EaseInOutQuart;

impl EasingFunction for EaseInOutQuart {
    open spec fn y_spec(&self, x: int) -> int {
        quart_in_out_y_spec(x)
    }

    fn y(&self, x: i64) -> (r: i64) {
        quart_in_out_y(x)
    }
}

/// Accelerating quintically from point A to point B.
#[derive(Copy, Clone, Debug, Default)]
pub struct EaseInQuint;

impl EasingFunction for EaseInQuint {
    open spec fn y_spec(&self, x: int) -> int {
        quint_in_y_spec(x)
    }

    fn y(&self, x: i64) -> (r: i64) {
        quint_in_y(x)
    }
}

/// Decelerating quintically from point A to point B.
#[derive(Copy, Clone, Debug, Default)]
pub struct EaseOutQuint;

impl EasingFunction for EaseOutQuint {
    open spec fn y_spec(&self, x: int) -> int {
        quint_out_y_spec(x)
    }

    fn y(&self, x: i64) -> (r: i64) {
        quint_out_y(x)
    }
}

/// Accelerating then decelerating quintically from point A to point B.
#[derive(Copy, Clone, Debug, Default)]
pub struct EaseInOutQuint;

impl EasingFunction for EaseInOutQuint {
    open spec fn y_spec(&self, x: int) -> int {
        quint_in_out_y_spec(x)
    }

    fn y(&self, x: i64) -> (r: i64) {
        quint_in_out_y(x)
    }
}

/// Accelerating cubically from point A to point B.
#[derive(Copy, Clone, Debug, Default)]
pub struct EaseIn;

impl EasingFunction for EaseIn {
    open spec fn y_spec(&self, x: int) -> int {
        cubic_in_y_spec(x)
    }

    fn y(&self, x: i64) -> (r: i64) {
        cubic_in_y(x)
    }
}

/// Decelerating cubically from point A to point B.
#[derive(Copy, Clone, Debug, Default)]
pub struct EaseOut;

impl EasingFunction for EaseOut {
    open spec fn y_spec(&self, x: int) -> int {
        cubic_out_y_spec(x)
    }

    fn y(&self, x: i64) -> (r: i64) {
        cubic_out_y(x)
    }
}

/// Accelerating then decelerating cubically from point A to point B.
#[derive(Copy, Clone, Debug, Default)]
pub struct EaseInOut;

impl EasingFunction for EaseInOut {
    open spec fn y_spec(&self, x: int) -> int {
        cubic_in_out_y_spec(x)
    }

    fn y(&self, x: i64) -> (r: i64) {
        cubic_in_out_y(x)
    }
}

} // verus!
