//! The two capability traits of the library — easing curves and tweenable
//! values — together with the generic easing entry points.

use vstd::prelude::*;

use crate::fixed::FX_ONE;
use crate::fixed::blend_spec;
use crate::fixed::clamp_unit_spec;
use crate::fixed::fx_blend;
use crate::fixed::scale_unit;
use crate::fixed::scale_unit_spec;

verus! {

/// A 2D curve function for easing between two points.
///
/// For an X position on the curve, `y` computes the Y position. `0` and
/// `FX_ONE` are start and end on both axes, but values may go out of bounds.
pub trait EasingFunction {
    /// The exact value `y` computes, as a mathematical function.
    spec fn y_spec(&self, x: int) -> int;

    /// For an X position on the curve, the Y position.
    fn y(&self, x: i64) -> (r: i64)
        ensures
            r as int == self.y_spec(x as int),
    ;
}

/// A value that can be blended toward another value of the same type.
///
/// Compound types gain the capability structurally: a record whose every
/// field is tweenable is tweened by blending each field independently with
/// the same progress fraction.
pub trait CanTween: Sized {
    /// The exact value `ease` computes.
    spec fn ease_spec(from: Self, to: Self, time: int) -> Self;

    /// The zero value used when a blend has to start from nothing.
    spec fn zero_spec() -> Self;

    /// The interpolated value between `from` and `to` at the given
    /// fixed-point progress fraction (unbounded: callers clamp).
    fn ease(from: Self, to: Self, time: i64) -> (r: Self)
        ensures
            r == Self::ease_spec(from, to, time as int),
    ;

    /// The zero value of this type.
    fn zero_value() -> (r: Self)
        ensures
            r == Self::zero_spec(),
    ;

    /// An exact copy of this value.
    fn clone_value(&self) -> (r: Self)
        ensures
            r == *self,
    ;
}

impl CanTween for i64 {
    open spec fn ease_spec(from: i64, to: i64, time: int) -> i64 {
        blend_spec(from as int, to as int, time) as i64
    }

    open spec fn zero_spec() -> i64 {
        0
    }

    fn ease(from: i64, to: i64, time: i64) -> (r: i64) {
        fx_blend(from, to, time)
    }

    fn zero_value() -> (r: i64) {
        0
    }

    fn clone_value(&self) -> (r: i64) {
        *self
    }
}

/// A two-component vector of tweenable values.
#[derive(Clone, Copy, Debug)]
pub struct Vector2<V> {
    pub x: V,
    pub y: V,
}

/// A three-component vector of tweenable values.
#[derive(Clone, Copy, Debug)]
pub struct Vector3<V> {
    pub x: V,
    pub y: V,
    pub z: V,
}

/// A four-component vector of tweenable values.
#[derive(Clone, Copy, Debug)]
pub struct Vector4<V> {
    pub x: V,
    pub y: V,
    pub z: V,
    pub w: V,
}

/// A point on a plane, tweened like the vector with the same components.
#[derive(Clone, Copy, Debug)]
pub struct Point2<V> {
    pub x: V,
    pub y: V,
}

/// A point in space, tweened like the vector with the same components.
#[derive(Clone, Copy, Debug)]
pub struct Point3<V> {
    pub x: V,
    pub y: V,
    pub z: V,
}

impl<V: CanTween> CanTween for Vector2<V> {
    open spec fn ease_spec(from: Vector2<V>, to: Vector2<V>, time: int) -> Vector2<V> {
        Vector2 { x: V::ease_spec(from.x, to.x, time), y: V::ease_spec(from.y, to.y, time) }
    }

    open spec fn zero_spec() -> Vector2<V> {
        Vector2 { x: V::zero_spec(), y: V::zero_spec() }
    }

    fn ease(from: Vector2<V>, to: Vector2<V>, time: i64) -> (r: Vector2<V>) {
        Vector2 { x: V::ease(from.x, to.x, time), y: V::ease(from.y, to.y, time) }
    }

    fn zero_value() -> (r: Vector2<V>) {
        Vector2 { x: V::zero_value(), y: V::zero_value() }
    }

    fn clone_value(&self) -> (r: Vector2<V>) {
        Vector2 { x: self.x.clone_value(), y: self.y.clone_value() }
    }
}

impl<V: CanTween> CanTween for Vector3<V> {
    open spec fn ease_spec(from: Vector3<V>, to: Vector3<V>, time: int) -> Vector3<V> {
        Vector3 {
            x: V::ease_spec(from.x, to.x, time),
            y: V::ease_spec(from.y, to.y, time),
            z: V::ease_spec(from.z, to.z, time),
        }
    }

    open spec fn zero_spec() -> Vector3<V> {
        Vector3 { x: V::zero_spec(), y: V::zero_spec(), z: V::zero_spec() }
    }

    fn ease(from: Vector3<V>, to: Vector3<V>, time: i64) -> (r: Vector3<V>) {
        Vector3 {
            x: V::ease(from.x, to.x, time),
            y: V::ease(from.y, to.y, time),
            z: V::ease(from.z, to.z, time),
        }
    }

    fn zero_value() -> (r: Vector3<V>) {
        Vector3 { x: V::zero_value(), y: V::zero_value(), z: V::zero_value() }
    }

    fn clone_value(&self) -> (r: Vector3<V>) {
        Vector3 { x: self.x.clone_value(), y: self.y.clone_value(), z: self.z.clone_value() }
    }
}

impl<V: CanTween> CanTween for Vector4<V> {
    open spec fn ease_spec(from: Vector4<V>, to: Vector4<V>, time: int) -> Vector4<V> {
        Vector4 {
            x: V::ease_spec(from.x, to.x, time),
            y: V::ease_spec(from.y, to.y, time),
            z: V::ease_spec(from.z, to.z, time),
            w: V::ease_spec(from.w, to.w, time),
        }
    }

    open spec fn zero_spec() -> Vector4<V> {
        Vector4 { x: V::zero_spec(), y: V::zero_spec(), z: V::zero_spec(), w: V::zero_spec() }
    }

    fn ease(from: Vector4<V>, to: Vector4<V>, time: i64) -> (r: Vector4<V>) {
        Vector4 {
            x: V::ease(from.x, to.x, time),
            y: V::ease(from.y, to.y, time),
            z: V::ease(from.z, to.z, time),
            w: V::ease(from.w, to.w, time),
        }
    }

    fn zero_value() -> (r: Vector4<V>) {
        Vector4 { x: V::zero_value(), y: V::zero_value(), z: V::zero_value(), w: V::zero_value() }
    }

    fn clone_value(&self) -> (r: Vector4<V>) {
        Vector4 {
            x: self.x.clone_value(),
            y: self.y.clone_value(),
            z: self.z.clone_value(),
            w: self.w.clone_value(),
        }
    }
}

impl<V: CanTween> CanTween for Point3<V> {
    open spec fn ease_spec(from: Point3<V>, to: Point3<V>, time: int) -> Point3<V> {
        Point3 {
            x: V::ease_spec(from.x, to.x, time),
            y: V::ease_spec(from.y, to.y, time),
            z: V::ease_spec(from.z, to.z, time),
        }
    }

    open spec fn zero_spec() -> Point3<V> {
        Point3 { x: V::zero_spec(), y: V::zero_spec(), z: V::zero_spec() }
    }

    fn ease(from: Point3<V>, to: Point3<V>, time: i64) -> (r: Point3<V>) {
        Point3 {
            x: V::ease(from.x, to.x, time),
            y: V::ease(from.y, to.y, time),
            z: V::ease(from.z, to.z, time),
        }
    }

    fn zero_value() -> (r: Point3<V>) {
        Point3 { x: V::zero_value(), y: V::zero_value(), z: V::zero_value() }
    }

    fn clone_value(&self) -> (r: Point3<V>) {
        Point3 { x: self.x.clone_value(), y: self.y.clone_value(), z: self.z.clone_value() }
    }
}

impl<V: CanTween> CanTween for Point2<V> {
    open spec fn ease_spec(from: Point2<V>, to: Point2<V>, time: int) -> Point2<V> {
        Point2 { x: V::ease_spec(from.x, to.x, time), y: V::ease_spec(from.y, to.y, time) }
    }

    open spec fn zero_spec() -> Point2<V> {
        Point2 { x: V::zero_spec(), y: V::zero_spec() }
    }

    fn ease(from: Point2<V>, to: Point2<V>, time: i64) -> (r: Point2<V>) {
        Point2 { x: V::ease(from.x, to.x, time), y: V::ease(from.y, to.y, time) }
    }

    fn zero_value() -> (r: Point2<V>) {
        Point2 { x: V::zero_value(), y: V::zero_value() }
    }

    fn clone_value(&self) -> (r: Point2<V>) {
        Point2 { x: self.x.clone_value(), y: self.y.clone_value() }
    }
}

/// What `ease_with_unbounded_time` returns.
pub open spec fn ease_unbounded_spec<V: CanTween, F: EasingFunction>(
    function: F,
    from: V,
    to: V,
    time: int,
) -> V {
    V::ease_spec(from, to, function.y_spec(time))
}

/// What `ease` returns: the progress fraction is clamped into `[0, FX_ONE]`
/// before the curve is applied.
pub open spec fn ease_spec<V: CanTween, F: EasingFunction>(
    function: F,
    from: V,
    to: V,
    time: int,
) -> V {
    ease_unbounded_spec(function, from, to, clamp_unit_spec(time))
}

/// The progress fraction `ease_with_scaled_time` hands to `ease`: `time`
/// clamped into `[0, max_time]` and scaled into `[0, FX_ONE]`.
pub open spec fn scaled_progress_spec(time: int, max_time: int) -> int
    recommends
        max_time > 0,
{
    if time < 0 {
        0
    } else if time > max_time {
        FX_ONE as int
    } else {
        scale_unit_spec(time, max_time)
    }
}

/// The value at X position `time` on the curve between `from` and `to`.
/// The time argument is expected to stay within `[0, FX_ONE]` but bounds
/// checking is not enforced.
pub fn ease_with_unbounded_time<V: CanTween, F: EasingFunction>(
    function: &F,
    from: V,
    to: V,
    time: i64,
) -> (r: V)
    ensures
        r == ease_unbounded_spec(*function, from, to, time as int),
{
    let y: i64 = function.y(time);
    V::ease(from, to, y)
}

/// The value at X position `time` on the curve between `from` and `to`.
/// Time is limited to a range between `0` and `FX_ONE`.
pub fn ease<V: CanTween, F: EasingFunction>(function: &F, from: V, to: V, time: i64) -> (r: V)
    ensures
        r == ease_spec(*function, from, to, time as int),
{
    let t: i64 = if time < 0 {
        0
    } else if time > FX_ONE {
        FX_ONE
    } else {
        time
    };
    ease_with_unbounded_time(function, from, to, t)
}

/// The value at X position `time` on the curve between `from` and `to`.
/// Time is limited to a range between `0` and `max_time` and scaled into a
/// fraction of `max_time`.
pub fn ease_with_scaled_time<V: CanTween, F: EasingFunction>(
    function: &F,
    from: V,
    to: V,
    time: i64,
    max_time: i64,
) -> (r: V)
    requires
        max_time > 0,
    ensures
        r == ease_spec(*function, from, to, scaled_progress_spec(time as int, max_time as int)),
{
    let t: i64 = if time < 0 {
        0
    } else if time > max_time {
        FX_ONE
    } else {
        scale_unit(time, max_time)
    };
    proof {
        assert(clamp_unit_spec(t as int) == t as int);
    }
    ease(function, from, to, t)
}

/// Element-wise blend of two sequences of tweenable values.
///
/// The two inputs must have equal length: a mismatch is a contract
/// violation of the caller, never a silent truncation.
pub fn ease_elementwise<V: CanTween>(from: &Vec<V>, to: &Vec<V>, time: i64) -> (r: Vec<V>)
    requires
        from@.len() == to@.len(),
    ensures
        r@.len() == from@.len(),
        forall|i: int|
            0 <= i < r@.len() ==> r@[i] == V::ease_spec(from@[i], to@[i], time as int),
{
    let mut r: Vec<V> = Vec::new();
    let mut i: usize = 0;
    while i < from.len()
        invariant
            from@.len() == to@.len(),
            0 <= i <= from@.len(),
            r@.len() == i,
            forall|j: int|
                0 <= j < i as int ==> r@[j] == V::ease_spec(from@[j], to@[j], time as int),
        decreases from@.len() - i,
    {
        let v: V = V::ease(from[i].clone_value(), to[i].clone_value(), time);
        r.push(v);
        i = i + 1;
    }
    r
}

} // verus!
