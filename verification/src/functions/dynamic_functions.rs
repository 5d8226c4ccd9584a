//! Runtime-configured easing curves: a user-defined cubic Bézier curve with a
//! precomputed sample table, a curve resampled from an animation sequence,
//! and the closed catalog of curves a keyframe can carry.

use vstd::prelude::*;

use crate::easing::EasingFunction;
use crate::easing::Vector2;
use crate::fixed::FX_ONE;
use crate::fixed::floor_div_spec;
use crate::fixed::floor_div_rem_i128;
use crate::fixed::fx_div;
use crate::fixed::fx_div_spec;
use crate::fixed::fx_mul;
use crate::fixed::fx_mul_spec;
use crate::fixed::sat64;
use crate::fixed::sat_i128;
use crate::functions::static_functions::Linear;
use crate::functions::static_functions::Step;
use crate::functions::static_functions::Hold;
use crate::functions::static_functions::EaseInQuad;
use crate::functions::static_functions::EaseOutQuad;
use crate::functions::static_functions::EaseInOutQuad;
use crate::functions::static_functions::EaseInCubic;
use crate::functions::static_functions::EaseOutCubic;
use crate::functions::static_functions::EaseInOutCubic;
use crate::functions::static_functions::EaseInQuart;
use crate::functions::static_functions::EaseOutQuart;
use crate::functions::static_functions::EaseInOutQuart;
use crate::functions::static_functions::EaseInQuint;
use crate::functions::static_functions::EaseOutQuint;
use crate::functions::static_functions::EaseInOutQuint;

verus! {

/// Number of entries in a precomputed curve sample table.
pub const SAMPLE_TABLE_SIZE: usize = 20;

/// The fixed-point width of one sample interval: `FX_ONE / 19`, truncated.
pub const SAMPLE_STEP: i64 = 52_631;

/// Bound on Newton-Raphson refinement steps.
pub const NEWTON_ITERATIONS: u32 = 4;

/// Smallest local slope Newton-Raphson is trusted on.
pub const NEWTON_MIN_SLOPE: i64 = 1_000;

/// Bound on binary subdivision steps after the first.
pub const SUBDIVISION_EXTRA_ITERATIONS: u32 = 8;

/// Clamping of a control-point coordinate into `[0, FX_ONE]`.
pub open spec fn clamp_coord_spec(c: int) -> int {
    if c < 0 {
        0
    } else if c > FX_ONE as int {
        FX_ONE as int
    } else {
        c
    }
}

/// First polynomial coefficient of a one-axis cubic Bézier: `1 - 3*x2 + 3*x1`.
pub open spec fn bezier_a_spec(x1: int, x2: int) -> int {
    sat64(FX_ONE as int - 3 * x2 + 3 * x1)
}

/// Second polynomial coefficient of a one-axis cubic Bézier: `3*x2 - 6*x1`.
pub open spec fn bezier_b_spec(x1: int, x2: int) -> int {
    sat64(3 * x2 - 6 * x1)
}

/// Third polynomial coefficient of a one-axis cubic Bézier: `3*x1`.
pub open spec fn bezier_c_spec(x1: int) -> int {
    sat64(3 * x1)
}

/// One axis of the cubic Bézier at parameter `t`: `((a*t + b)*t + c)*t`.
pub open spec fn bezier_at_spec(t: int, x1: int, x2: int) -> int {
    fx_mul_spec(
        sat64(
            fx_mul_spec(sat64(fx_mul_spec(bezier_a_spec(x1, x2), t) + bezier_b_spec(x1, x2)), t)
                + bezier_c_spec(x1),
        ),
        t,
    )
}

/// Derivative of one Bézier axis at parameter `t`: `3*a*t^2 + 2*b*t + c`.
pub open spec fn bezier_slope_spec(t: int, x1: int, x2: int) -> int {
    sat64(
        3 * fx_mul_spec(bezier_a_spec(x1, x2), fx_mul_spec(t, t)) + 2 * fx_mul_spec(
            bezier_b_spec(x1, x2),
            t,
        ) + bezier_c_spec(x1),
    )
}

/// Bounded Newton-Raphson refinement of a parameter guess for the X axis.
pub open spec fn newton_spec(x: int, guess: int, x1: int, x2: int, n: nat) -> int
    decreases n,
{
    if n == 0 {
        guess
    } else {
        let s = bezier_slope_spec(guess, x1, x2);
        if s == 0 {
            guess
        } else {
            newton_spec(
                x,
                sat64(guess - fx_div_spec(sat64(bezier_at_spec(guess, x1, x2) - x), s)),
                x1,
                x2,
                (n - 1) as nat,
            )
        }
    }
}

/// Bounded binary subdivision of `[a, b]` looking for the parameter whose X
/// value is `x`. One step always runs; `fuel` bounds the extra steps.
pub open spec fn subdivide_spec(x: int, a: int, b: int, x1: int, x2: int, fuel: nat) -> int
    recommends
        0 <= a <= b,
    decreases fuel,
{
    let t = a + (b - a) / 2;
    let cx = sat64(bezier_at_spec(t, x1, x2) - x);
    if cx == 0 || fuel == 0 {
        t
    } else if cx > 0 {
        subdivide_spec(x, a, t, x1, x2, (fuel - 1) as nat)
    } else {
        subdivide_spec(x, t, b, x1, x2, (fuel - 1) as nat)
    }
}

/// Index of the sample bracket used for an X value: the first table position
/// from `k` on whose sample lies above `x`, capped at the last sample.
pub open spec fn bracket_scan_spec(table: [i64; 20], x: int, k: int) -> int
    recommends
        1 <= k <= 19,
    decreases 19 - k,
{
    if k >= 19 {
        19
    } else if table[k] as int <= x {
        bracket_scan_spec(table, x, k + 1)
    } else {
        k
    }
}

/// Computes `bezier_at_spec`.
pub fn bezier_at(t: i64, x1: i64, x2: i64) -> (r: i64)
    ensures
        r as int == bezier_at_spec(t as int, x1 as int, x2 as int),
{
    let a: i64 = sat_i128(1_000_000 - 3 * (x2 as i128) + 3 * (x1 as i128));
    let b: i64 = sat_i128(3 * (x2 as i128) - 6 * (x1 as i128));
    let c: i64 = sat_i128(3 * (x1 as i128));
    let s1: i64 = sat_i128((fx_mul(a, t) as i128) + (b as i128));
    let s2: i64 = sat_i128((fx_mul(s1, t) as i128) + (c as i128));
    fx_mul(s2, t)
}

/// Computes `bezier_slope_spec`.
pub fn bezier_slope(t: i64, x1: i64, x2: i64) -> (r: i64)
    ensures
        r as int == bezier_slope_spec(t as int, x1 as int, x2 as int),
{
    let a: i64 = sat_i128(1_000_000 - 3 * (x2 as i128) + 3 * (x1 as i128));
    let b: i64 = sat_i128(3 * (x2 as i128) - 6 * (x1 as i128));
    let c: i64 = sat_i128(3 * (x1 as i128));
    let t2: i64 = fx_mul(t, t);
    sat_i128(3 * (fx_mul(a, t2) as i128) + 2 * (fx_mul(b, t) as i128) + (c as i128))
}

fn newton_raphson(x: i64, guess: i64, x1: i64, x2: i64, n: u32) -> (r: i64)
    ensures
        r as int == newton_spec(x as int, guess as int, x1 as int, x2 as int, n as nat),
    decreases n,
{
    if n == 0 {
        guess
    } else {
        let s: i64 = bezier_slope(guess, x1, x2);
        if s == 0 {
            guess
        } else {
            let cx: i64 = sat_i128((bezier_at(guess, x1, x2) as i128) - (x as i128));
            let g2: i64 = sat_i128((guess as i128) - (fx_div(cx, s) as i128));
            newton_raphson(x, g2, x1, x2, n - 1)
        }
    }
}

fn binary_subdivide(x: i64, a: i64, b: i64, x1: i64, x2: i64, fuel: u32) -> (r: i64)
    requires
        0 <= a <= b,
    ensures
        r as int == subdivide_spec(x as int, a as int, b as int, x1 as int, x2 as int, fuel as nat),
    decreases fuel,
{
    let t: i64 = a + (b - a) / 2;
    let cx: i64 = sat_i128((bezier_at(t, x1, x2) as i128) - (x as i128));
    if cx == 0 || fuel == 0 {
        t
    } else if cx > 0 {
        binary_subdivide(x, a, t, x1, x2, fuel - 1)
    } else {
        binary_subdivide(x, t, b, x1, x2, fuel - 1)
    }
}

/// User-defined cubic Bézier curve, with a precomputed monotonic sample
/// table of X values for fast inversion.
#[derive(Clone, Copy, Debug)]
pub struct BezierCurve {
    /// X values of the curve at evenly spaced parameter steps.
    pub sample_table: [i64; 20],
    /// The first control point, each coordinate within `[0, FX_ONE]`.
    pub p1: Vector2<i64>,
    /// The second control point, each coordinate within `[0, FX_ONE]`.
    pub p2: Vector2<i64>,
}

/// The parameter guess `t_for_x` starts from, by linear interpolation
/// inside the bracketing sample interval.
pub open spec fn bezier_guess_spec(c: BezierCurve, x: int) -> int {
    let k = bracket_scan_spec(c.sample_table, x, 1) - 1;
    let lo = c.sample_table[k] as int;
    let hi = c.sample_table[k + 1] as int;
    let dist = if hi - lo == 0 {
        0
    } else {
        fx_div_spec(sat64(x - lo), sat64(hi - lo))
    };
    sat64(k * SAMPLE_STEP as int + fx_mul_spec(dist, SAMPLE_STEP as int))
}

/// The curve parameter `t_for_x` finds for an X value.
pub open spec fn t_for_x_spec(c: BezierCurve, x: int) -> int {
    let k = bracket_scan_spec(c.sample_table, x, 1) - 1;
    let guess = bezier_guess_spec(c, x);
    let s = bezier_slope_spec(guess, c.p1.x as int, c.p2.x as int);
    if s >= NEWTON_MIN_SLOPE as int {
        newton_spec(x, guess, c.p1.x as int, c.p2.x as int, NEWTON_ITERATIONS as nat)
    } else if s == 0 {
        guess
    } else {
        subdivide_spec(
            x,
            k * SAMPLE_STEP as int,
            k * SAMPLE_STEP as int + SAMPLE_STEP as int,
            c.p1.x as int,
            c.p2.x as int,
            SUBDIVISION_EXTRA_ITERATIONS as nat,
        )
    }
}

/// What `BezierCurve::y` returns: exact at the endpoints, and the Y axis of
/// the curve at the inverted parameter everywhere else.
pub open spec fn bezier_y_spec(c: BezierCurve, x: int) -> int {
    if x == 0 {
        0
    } else if x == FX_ONE as int {
        FX_ONE as int
    } else {
        bezier_at_spec(t_for_x_spec(c, x), c.p1.y as int, c.p2.y as int)
    }
}

impl BezierCurve {
    /// Calculates a new cubic Bézier curve from its two control points,
    /// clamping every coordinate into `[0, FX_ONE]`.
    pub fn from(p1: Vector2<i64>, p2: Vector2<i64>) -> (r: BezierCurve)
        ensures
            r.p1.x as int == clamp_coord_spec(p1.x as int),
            r.p1.y as int == clamp_coord_spec(p1.y as int),
            r.p2.x as int == clamp_coord_spec(p2.x as int),
            r.p2.y as int == clamp_coord_spec(p2.y as int),
            forall|i: int|
                0 <= i < 20 ==> r.sample_table[i] as int == bezier_at_spec(
                    (i * SAMPLE_STEP as int),
                    r.p1.x as int,
                    r.p2.x as int,
                ),
    {
        let p1c = Vector2 { x: clamp_coord(p1.x), y: clamp_coord(p1.y) };
        let p2c = Vector2 { x: clamp_coord(p2.x), y: clamp_coord(p2.y) };
        let mut table: [i64; 20] = [0; 20];
        let mut i: usize = 0;
        while i < 20
            invariant
                0 <= i <= 20,
                0 <= p1c.x <= FX_ONE,
                0 <= p2c.x <= FX_ONE,
                forall|j: int|
                    0 <= j < i as int ==> table[j] as int == bezier_at_spec(
                        (j * SAMPLE_STEP as int),
                        p1c.x as int,
                        p2c.x as int,
                    ),
            decreases 20 - i,
        {
            let t: i64 = (i as i64) * SAMPLE_STEP;
            table[i] = bezier_at(t, p1c.x, p2c.x);
            i = i + 1;
        }
        BezierCurve { sample_table: table, p1: p1c, p2: p2c }
    }

    /// Inverts the X axis of the curve: finds the parameter whose X value is
    /// `x`, by table lookup, then Newton-Raphson or binary subdivision.
    fn t_for_x(&self, x: i64) -> (r: i64)
        ensures
            r as int == t_for_x_spec(*self, x as int),
    {
        let mut current_sample: usize = 1;
        while current_sample != 19 && self.sample_table[current_sample] <= x
            invariant
                1 <= current_sample <= 19,
                bracket_scan_spec(self.sample_table, x as int, 1) == bracket_scan_spec(
                    self.sample_table,
                    x as int,
                    current_sample as int,
                ),
            decreases 19 - current_sample,
        {
            current_sample = current_sample + 1;
        }
        proof {
            assert(bracket_scan_spec(self.sample_table, x as int, current_sample as int)
                == current_sample as int);
        }
        let k: usize = current_sample - 1;
        let interval_start: i64 = (k as i64) * SAMPLE_STEP;

        let lo: i64 = self.sample_table[k];
        let hi: i64 = self.sample_table[k + 1];
        let denom: i64 = sat_i128((hi as i128) - (lo as i128));
        let dist: i64 = if denom == 0 {
            0
        } else {
            fx_div(sat_i128((x as i128) - (lo as i128)), denom)
        };
        let guess: i64 = sat_i128((interval_start as i128) + (fx_mul(dist, SAMPLE_STEP) as i128));

        let s: i64 = bezier_slope(guess, self.p1.x, self.p2.x);
        if s >= NEWTON_MIN_SLOPE {
            newton_raphson(x, guess, self.p1.x, self.p2.x, NEWTON_ITERATIONS)
        } else if s == 0 {
            guess
        } else {
            binary_subdivide(
                x,
                interval_start,
                interval_start + SAMPLE_STEP,
                self.p1.x,
                self.p2.x,
                SUBDIVISION_EXTRA_ITERATIONS,
            )
        }
    }
}

impl EasingFunction for BezierCurve {
    open spec fn y_spec(&self, x: int) -> int {
        bezier_y_spec(*self, x)
    }

    fn y(&self, x: i64) -> (r: i64) {
        if x == 0 {
            0
        } else if x == FX_ONE {
            FX_ONE
        } else {
            bezier_at(self.t_for_x(x), self.p1.y, self.p2.y)
        }
    }
}

fn clamp_coord(c: i64) -> (r: i64)
    ensures
        r as int == clamp_coord_spec(c as int),
{
    if c < 0 {
        0
    } else if c > FX_ONE {
        FX_ONE
    } else {
        c
    }
}

/// What `Keyframes::y` returns: linear interpolation between the two
/// bracketing table samples, extrapolated linearly along the boundary
/// segments at or beyond the first and last samples rather than clamped.
pub open spec fn sampled_y_spec(table: [i64; 20], x: int) -> int {
    let p = x * 19;
    let c = floor_div_spec(p, FX_ONE as int);
    let k: int = if c < 0 {
        0
    } else if c > 18 {
        18
    } else {
        c
    };
    sat64(
        table[k] as int + fx_mul_spec(
            sat64(table[k + 1] as int - table[k] as int),
            sat64(p - k * FX_ONE as int),
        ),
    )
}

/// User-defined easing function derived from a normalized animation
/// sequence, resampled into a fixed-size table of Y values.
#[derive(Clone, Copy, Debug)]
pub struct Keyframes(pub [i64; 20]);

impl EasingFunction for Keyframes {
    open spec fn y_spec(&self, x: int) -> int {
        sampled_y_spec(self.0, x)
    }

    fn y(&self, x: i64) -> (r: i64) {
        let p: i128 = (x as i128) * 19;
        let (c, _) = floor_div_rem_i128(p, 1_000_000);
        let k: usize = if c < 0 {
            0
        } else if c > 18 {
            18
        } else {
            c as usize
        };
        let offset: i64 = sat_i128(p - (k as i128) * 1_000_000);
        let d: i64 = sat_i128((self.0[k + 1] as i128) - (self.0[k] as i128));
        sat_i128((self.0[k] as i128) + (fx_mul(d, offset) as i128))
    }
}

/// The catalog of easing curves a keyframe can carry.
///
/// The static variants name the parameter-free curves; the last two carry a
/// runtime-configured curve by value.
#[derive(Clone, Copy, Debug)]
pub enum Curve {
    /// Linear interpolation.
    Linear,
    /// Rounds to the closest endpoint.
    Step,
    /// Holds the start value.
    Hold,
    /// Quadratic ease-in.
    InQuad,
    /// Quadratic ease-out.
    OutQuad,
    /// Quadratic ease-in-out.
    InOutQuad,
    /// Cubic ease-in.
    InCubic,
    /// Cubic ease-out.
    OutCubic,
    /// Cubic ease-in-out.
    InOutCubic,
    /// Quartic ease-in.
    InQuart,
    /// Quartic ease-out.
    OutQuart,
    /// Quartic ease-in-out.
    InOutQuart,
    /// Quintic ease-in.
    InQuint,
    /// Quintic ease-out.
    OutQuint,
    /// Quintic ease-in-out.
    InOutQuint,
    /// A user-defined cubic Bézier curve.
    Bezier(BezierCurve),
    /// A curve resampled from an animation sequence.
    Sampled(Keyframes),
}

impl EasingFunction for Curve {
    open spec fn y_spec(&self, x: int) -> int {
        match *self {
            Curve::Linear => Linear.y_spec(x),
            Curve::Step => Step.y_spec(x),
            Curve::Hold => Hold.y_spec(x),
            Curve::InQuad => EaseInQuad.y_spec(x),
            Curve::OutQuad => EaseOutQuad.y_spec(x),
            Curve::InOutQuad => EaseInOutQuad.y_spec(x),
            Curve::InCubic => EaseInCubic.y_spec(x),
            Curve::OutCubic => EaseOutCubic.y_spec(x),
            Curve::InOutCubic => EaseInOutCubic.y_spec(x),
            Curve::InQuart => EaseInQuart.y_spec(x),
            Curve::OutQuart => EaseOutQuart.y_spec(x),
            Curve::InOutQuart => EaseInOutQuart.y_spec(x),
            Curve::InQuint => EaseInQuint.y_spec(x),
            Curve::OutQuint => EaseOutQuint.y_spec(x),
            Curve::InOutQuint => EaseInOutQuint.y_spec(x),
            Curve::Bezier(b) => b.y_spec(x),
            Curve::Sampled(k) => k.y_spec(x),
        }
    }

    fn y(&self, x: i64) -> (r: i64) {
        match self {
            Curve::Linear => Linear.y(x),
            Curve::Step => Step.y(x),
            Curve::Hold => Hold.y(x),
            Curve::InQuad => EaseInQuad.y(x),
            Curve::OutQuad => EaseOutQuad.y(x),
            Curve::InOutQuad => EaseInOutQuad.y(x),
            Curve::InCubic => EaseInCubic.y(x),
            Curve::OutCubic => EaseOutCubic.y(x),
            Curve::InOutCubic => EaseInOutCubic.y(x),
            Curve::InQuart => EaseInQuart.y(x),
            Curve::OutQuart => EaseOutQuart.y(x),
            Curve::InOutQuart => EaseInOutQuart.y(x),
            Curve::InQuint => EaseInQuint.y(x),
            Curve::OutQuint => EaseOutQuint.y(x),
            Curve::InOutQuint => EaseInOutQuint.y(x),
            Curve::Bezier(b) => b.y(x),
            Curve::Sampled(k) => k.y(x),
        }
    }
}

} // verus!
