//! One intermediate step of an animation sequence: a value anchored at a
//! start time, with the easing curve used when blending toward the next step.

use vstd::prelude::*;

use crate::easing::CanTween;
use crate::fixed::scale_unit;
use crate::fixed::scale_unit_spec;
use crate::functions::dynamic_functions::Curve;
use crate::easing::EasingFunction;

verus! {

/// Intermediate step in an animation sequence.
///
/// Immutable once constructed: the start time is clamped to zero at
/// construction and never changes afterwards.
pub struct Keyframe<T> {
    value: T,
    time: i64,
    function: Curve,
}

impl<T> Keyframe<T> {
    #[verifier::type_invariant]
    spec fn inv(self) -> bool {
        self.time >= 0
    }

    /// The value this keyframe is tweened to and from.
    pub closed spec fn value_spec(self) -> T {
        self.value
    }

    /// The start time of this keyframe, in fixed-point seconds.
    pub closed spec fn time_spec(self) -> int {
        self.time as int
    }

    /// The easing curve used when tweening toward the next keyframe.
    pub closed spec fn function_spec(self) -> Curve {
        self.function
    }

    /// The same keyframe anchored at another start time.
    pub closed spec fn retimed_spec(self, time: int) -> Keyframe<T> {
        Keyframe { value: self.value, time: time as i64, function: self.function }
    }

    /// A retimed keyframe keeps its value and curve; within the machine
    /// range it carries exactly the requested time.
    pub broadcast proof fn lemma_retimed_spec(self, time: int)
        ensures
            (#[trigger] self.retimed_spec(time)).value_spec() == self.value_spec(),
            self.retimed_spec(time).function_spec() == self.function_spec(),
            i64::MIN <= time <= i64::MAX ==> self.retimed_spec(time).time_spec() == time,
    {
    }

    /// A keyframe's start time is a machine integer.
    pub broadcast proof fn lemma_time_spec_bounds(self)
        ensures
            i64::MIN <= #[trigger] self.time_spec() <= i64::MAX,
    {
    }

    /// Two keyframes with the same value, time and curve are the same.
    pub proof fn lemma_ext(a: Keyframe<T>, b: Keyframe<T>)
        requires
            a.value_spec() == b.value_spec(),
            a.time_spec() == b.time_spec(),
            a.function_spec() == b.function_spec(),
        ensures
            a == b,
    {
    }

    /// Creates a new keyframe from the specified values.
    /// If the time value is negative the keyframe will start at `0`.
    pub fn new(value: T, time: i64, function: Curve) -> (r: Keyframe<T>)
        ensures
            r.value_spec() == value,
            r.function_spec() == function,
            r.time_spec() == if time < 0 { 0int } else { time as int },
    {
        Keyframe { value, time: if time < 0 { 0 } else { time }, function }
    }

    /// The same keyframe anchored at another (nonnegative) start time.
    pub(crate) fn with_time(self, time: i64) -> (r: Keyframe<T>)
        requires
            time >= 0,
        ensures
            r == self.retimed_spec(time as int),
    {
        let Keyframe { value, time: _, function } = self;
        Keyframe { value, time, function }
    }

    /// The time in seconds at which this keyframe starts in a sequence.
    pub fn time(&self) -> (r: i64)
        ensures
            r as int == self.time_spec(),
            r >= 0,
    {
        proof {
            use_type_invariant(self);
        }
        self.time
    }

    /// The easing function that will be used when tweening to another
    /// keyframe.
    pub fn function(&self) -> (r: &Curve)
        ensures
            *r == self.function_spec(),
    {
        &self.function
    }
}

impl<T: CanTween> Keyframe<T> {
    /// The value of this keyframe.
    pub fn value(&self) -> (r: T)
        ensures
            r == self.value_spec(),
    {
        self.value.clone_value()
    }

    /// What `tween_to` returns, as a function of the two keyframes and the
    /// requested time.
    ///
    /// The boundary rules, in order: a time before this keyframe returns
    /// this keyframe's value unchanged; a time after the next keyframe
    /// returns the next keyframe's value unchanged; a degenerate pair whose
    /// next keyframe does not start strictly later also returns the next
    /// keyframe's value. Otherwise the time is scaled into a fraction of the
    /// span, remapped through this keyframe's curve, and the two values are
    /// blended at that eased fraction.
    pub open spec fn tween_spec(self, next: Keyframe<T>, time: int) -> T {
        if time < self.time_spec() {
            self.value_spec()
        } else if time > next.time_spec() {
            next.value_spec()
        } else if next.time_spec() <= self.time_spec() {
            next.value_spec()
        } else {
            let x = scale_unit_spec(time - self.time_spec(), next.time_spec() - self.time_spec());
            T::ease_spec(self.value_spec(), next.value_spec(), self.function_spec().y_spec(x))
        }
    }

    /// Returns the value between this keyframe and the next keyframe at the
    /// specified time, under the boundary rules of `tween_spec`.
    pub fn tween_to(&self, next: &Keyframe<T>, time: i64) -> (r: T)
        ensures
            r == self.tween_spec(*next, time as int),
    {
        proof {
            use_type_invariant(self);
            use_type_invariant(next);
        }
        if time < self.time {
            self.value.clone_value()
        } else if time > next.time {
            next.value.clone_value()
        } else if next.time <= self.time {
            next.value.clone_value()
        } else {
            let x: i64 = scale_unit(time - self.time, next.time - self.time);
            let eased: i64 = self.function.y(x);
            T::ease(self.value.clone_value(), next.value.clone_value(), eased)
        }
    }
}

} // verus!
