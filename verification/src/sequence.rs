//! The sequence engine: an ordered collection of keyframes owning the
//! current playback time and a cached cursor into the ordered list, with
//! insertion, removal, seeking, reversal and value queries.

use vstd::prelude::*;

use crate::easing::CanTween;
use crate::fixed::FX_HALF;
use crate::fixed::FX_ONE;
use crate::fixed::fx_abs;
use crate::fixed::fx_div;
use crate::fixed::fx_div_spec;
use crate::fixed::sat64;
use crate::fixed::sat_i128;
use crate::fixed::scale_unit;
use crate::fixed::scale_unit_spec;
use crate::functions::dynamic_functions::Keyframes;
use crate::keyframe::Keyframe;

verus! {

broadcast use crate::keyframe::Keyframe::lemma_retimed_spec, crate::keyframe::Keyframe::lemma_time_spec_bounds;

/// Category of animation sequence error.
#[derive(Clone, Copy, Debug, PartialEq, Eq, Structural)]
pub enum AnimationSequenceError {
    /// An attempt was made to insert a keyframe into the sequence when
    /// another keyframe already exists with the same start time.
    TimeCollision(i64),
}

/// Start time of the last entry of a keyframe sequence, or zero when empty.
pub open spec fn duration_of<T>(s: Seq<Keyframe<T>>) -> int {
    if s.len() == 0 {
        0
    } else {
        s[s.len() - 1].time_spec()
    }
}

/// Entries are strictly sorted ascending by start time (so no two entries
/// share a time).
pub open spec fn times_sorted<T>(s: Seq<Keyframe<T>>) -> bool {
    forall|i: int, j: int|
        0 <= i < j < s.len() ==> s[i].time_spec() < s[j].time_spec()
}

/// Every entry starts at a nonnegative time.
pub open spec fn times_nonneg<T>(s: Seq<Keyframe<T>>) -> bool {
    forall|i: int| 0 <= i < s.len() ==> s[i].time_spec() >= 0
}

/// Whether some entry starts exactly at time `t`.
pub open spec fn has_time_in<T>(s: Seq<Keyframe<T>>, t: int) -> bool {
    exists|i: int| 0 <= i < s.len() && s[i].time_spec() == t
}

/// The cursor is consistent with a playback time: it identifies the
/// greatest-indexed entry whose time is at or before the playback time, or
/// nothing when no such entry exists.
pub open spec fn cursor_ok<T>(s: Seq<Keyframe<T>>, time: int, cursor: Option<int>) -> bool {
    match cursor {
        None => s.len() == 0 || s[0].time_spec() > time,
        Some(k) => 0 <= k < s.len() && s[k].time_spec() <= time && (k + 1 < s.len()
            ==> s[k + 1].time_spec() > time),
    }
}

/// A playback timestamp clamped into `[0, duration]`.
pub open spec fn clamp_time_spec(t: int, duration: int) -> int
    recommends
        duration >= 0,
{
    if t < 0 {
        0
    } else if t > duration {
        duration
    } else {
        t
    }
}

/// Insertion of a keyframe into a time-sorted sequence, before the first
/// entry that does not start strictly earlier.
pub open spec fn sorted_insert<T>(s: Seq<Keyframe<T>>, k: Keyframe<T>) -> Seq<Keyframe<T>>
    decreases s.len(),
{
    if s.len() == 0 {
        seq![k]
    } else if k.time_spec() < s[0].time_spec() {
        seq![k] + s
    } else {
        seq![s[0]] + sorted_insert(s.drop_first(), k)
    }
}

proof fn lemma_sorted_insert_at<T>(s: Seq<Keyframe<T>>, k: Keyframe<T>, pos: int)
    requires
        0 <= pos <= s.len(),
        forall|j: int| 0 <= j < pos ==> s[j].time_spec() < k.time_spec(),
        pos < s.len() ==> s[pos].time_spec() > k.time_spec(),
    ensures
        sorted_insert(s, k) == s.insert(pos, k),
    decreases s.len(),
{
    if s.len() == 0 {
        assert(sorted_insert(s, k) =~= s.insert(0, k));
    } else if pos == 0 {
        assert(sorted_insert(s, k) =~= s.insert(0, k));
    } else {
        lemma_sorted_insert_at(s.drop_first(), k, pos - 1);
        assert(sorted_insert(s, k) =~= s.insert(pos, k));
    }
}

/// Sequential insertion of a batch of keyframes into a sorted sequence:
/// the entries after the first collision (with its time), or all of them.
pub open spec fn insert_all<T>(s: Seq<Keyframe<T>>, ks: Seq<Keyframe<T>>) -> (
    Seq<Keyframe<T>>,
    Option<int>,
)
    decreases ks.len(),
{
    if ks.len() == 0 {
        (s, None::<int>)
    } else if has_time_in(s, ks[0].time_spec()) {
        (s, Some(ks[0].time_spec()))
    } else {
        insert_all(sorted_insert(s, ks[0]), ks.drop_first())
    }
}

/// Sequential insertion of a batch of keyframes into a sorted sequence,
/// discarding every keyframe whose time collides with an earlier entry
/// (first-inserted wins).
pub open spec fn insert_all_lenient<T>(s: Seq<Keyframe<T>>, ks: Seq<Keyframe<T>>) -> Seq<
    Keyframe<T>,
>
    decreases ks.len(),
{
    if ks.len() == 0 {
        s
    } else if has_time_in(s, ks[0].time_spec()) {
        insert_all_lenient(s, ks.drop_first())
    } else {
        insert_all_lenient(sorted_insert(s, ks[0]), ks.drop_first())
    }
}

/// The subsequence of `s` selected by a mask of kept positions.
pub open spec fn mask_filter<T>(s: Seq<Keyframe<T>>, mask: Seq<bool>) -> Seq<Keyframe<T>>
    recommends
        mask.len() == s.len(),
    decreases s.len(),
{
    if s.len() == 0 {
        Seq::empty()
    } else {
        let rest = mask_filter(s.drop_last(), mask.drop_last());
        if mask.last() {
            rest.push(s.last())
        } else {
            rest
        }
    }
}

proof fn lemma_mask_filter_member<T>(s: Seq<Keyframe<T>>, mask: Seq<bool>, j: int)
    requires
        mask.len() == s.len(),
        0 <= j < mask_filter(s, mask).len(),
    ensures
        exists|i: int| 0 <= i < s.len() && mask_filter(s, mask)[j] == s[i],
    decreases s.len(),
{
    let rest = mask_filter(s.drop_last(), mask.drop_last());
    if mask.last() && j == rest.len() {
        assert(mask_filter(s, mask)[j] == s[s.len() - 1]);
    } else {
        lemma_mask_filter_member(s.drop_last(), mask.drop_last(), j);
        let i = choose|i: int|
            0 <= i < s.drop_last().len() && mask_filter(s.drop_last(), mask.drop_last())[j]
                == s.drop_last()[i];
        assert(mask_filter(s, mask)[j] == s[i]);
    }
}

/// A sequence of keyframes with every start time remapped to `duration -
/// old time`, in reversed order (which restores ascending times).
pub open spec fn reversed_entries<T>(s: Seq<Keyframe<T>>) -> Seq<Keyframe<T>> {
    Seq::new(
        s.len(),
        |i: int|
            s[s.len() - 1 - i].retimed_spec(duration_of(s) - s[s.len() - 1 - i].time_spec()),
    )
}

/// Where looping playback lands: the wrapped position of an absolute target
/// time on a sequence of duration `d`. A target that overshoots lands its
/// leftover past the start; one that undershoots lands it before the end; a
/// whole number of laps forward parks at the end.
pub open spec fn wrap_time_spec(target: int, d: int) -> int
    recommends
        d >= 0,
{
    if d <= 0 {
        0
    } else if 0 <= target <= d {
        target
    } else if target > d {
        if target % d == 0 {
            d
        } else {
            target % d
        }
    } else {
        target % d
    }
}

/// One round of wrapping: jump to the boundary opposite the leftover,
/// re-apply it, and repeat while it still overflows a positive duration.
pub open spec fn wrap_steps(rem: int, d: int) -> int
    recommends
        d >= 1,
    decreases fx_abs(rem),
{
    let start: int = if rem < 0 {
        d
    } else {
        0
    };
    let target = start + rem;
    let t2 = clamp_time_spec(target, d);
    let rem2 = target - t2;
    if rem2 == 0 || d < 1 {
        t2
    } else {
        wrap_steps(rem2, d)
    }
}

/// Repeated wrapping of a leftover from the boundary it overflowed lands
/// exactly where `wrap_time_spec` puts the absolute target.
pub proof fn lemma_wrap_steps(rem: int, d: int)
    requires
        d >= 1,
        rem != 0,
    ensures
        wrap_steps(rem, d) == wrap_time_spec(
            (if rem > 0 {
                d
            } else {
                0
            }) + rem,
            d,
        ),
    decreases fx_abs(rem),
{
    vstd::arithmetic::div_mod::lemma_mod_add_multiples_vanish(rem, d);
    if rem > 0 {
        if rem <= d {
            if rem < d {
                vstd::arithmetic::div_mod::lemma_small_mod(rem as nat, d as nat);
            } else {
                vstd::arithmetic::div_mod::lemma_mod_self_0(d);
            }
        } else {
            lemma_wrap_steps(rem - d, d);
            vstd::arithmetic::div_mod::lemma_mod_add_multiples_vanish(rem - d, d);
        }
    } else {
        if d + rem >= 0 {
            if d + rem < d {
                vstd::arithmetic::div_mod::lemma_small_mod((d + rem) as nat, d as nat);
            } else {
                vstd::arithmetic::div_mod::lemma_mod_self_0(d);
            }
        } else {
            lemma_wrap_steps(d + rem, d);
        }
    }
}

/// One bounce of ping-pong playback: reverse the time axis, reposition at
/// the boundary the leftover runs from, re-apply it, and repeat while it
/// still overflows a positive duration. Returns the entries and the
/// playback time it ends on.
pub open spec fn bounce_spec<T>(s: Seq<Keyframe<T>>, rem: int) -> (Seq<Keyframe<T>>, int)
    decreases fx_abs(rem),
{
    let s2 = reversed_entries(s);
    let d2 = duration_of(s2);
    let start: int = if rem < 0 {
        d2
    } else {
        0
    };
    let target = start + rem;
    let t2 = clamp_time_spec(target, d2);
    let rem2 = target - t2;
    if rem2 == 0 || d2 < 1 {
        (s2, t2)
    } else {
        bounce_spec(s2, rem2)
    }
}

/// The greatest index of an entry whose start time is at or before `t`, or
/// nothing when no such entry exists (for time-sorted entries this is the
/// active keyframe of playback time `t`).
pub open spec fn active_index<T>(s: Seq<Keyframe<T>>, t: int) -> Option<int>
    decreases s.len(),
{
    if s.len() == 0 {
        None
    } else if s[s.len() - 1].time_spec() <= t {
        Some(s.len() - 1)
    } else {
        active_index(s.drop_last(), t)
    }
}

/// On a sorted sequence, any cursor consistent with a playback time is the
/// active index of that time.
pub proof fn lemma_active_index_agrees<T>(s: Seq<Keyframe<T>>, t: int, c: Option<int>)
    requires
        times_sorted(s),
        cursor_ok(s, t, c),
    ensures
        c == active_index(s, t),
    decreases s.len(),
{
    if s.len() == 0 {
    } else if s[s.len() - 1].time_spec() <= t {
        match c {
            None => {
                assert(s[0].time_spec() <= s[s.len() - 1].time_spec());
            },
            Some(k) => {
                if k < s.len() - 1 {
                    assert(s[k + 1].time_spec() <= s[s.len() - 1].time_spec());
                }
            },
        }
    } else {
        let s2 = s.drop_last();
        assert(cursor_ok(s2, t, c)) by {
            match c {
                None => {},
                Some(k) => {
                    assert(s[k].time_spec() <= t);
                },
            }
        }
        lemma_active_index_agrees(s2, t, c);
    }
}

/// The value a sorted sequence shows at playback time `t`: the blend of the
/// active pair, the nearest entry's value at or beyond the ends, and
/// nothing on an empty sequence.
pub open spec fn value_at<T: CanTween>(s: Seq<Keyframe<T>>, t: int) -> Option<T> {
    match active_index(s, t) {
        None => if s.len() == 0 {
            None
        } else {
            Some(s[0].value_spec())
        },
        Some(k) => if k == s.len() - 1 {
            Some(s[k].value_spec())
        } else {
            Some(s[k].tween_spec(s[k + 1], t))
        },
    }
}

/// The lower normalization bound a scalar sequence is resampled against:
/// the first entry's value, or zero when the raw bounds are degenerate.
pub open spec fn sample_low(s: Seq<Keyframe<i64>>) -> int {
    let low0: int = if s.len() == 0 {
        0
    } else {
        s[0].value_spec() as int
    };
    let high0: int = if s.len() == 0 {
        FX_ONE as int
    } else {
        s[s.len() - 1].value_spec() as int
    };
    if high0 == 0 || high0 == low0 {
        0
    } else {
        low0
    }
}

/// The upper normalization bound a scalar sequence is resampled against:
/// the last entry's value, or one whole unit when the raw bounds are
/// degenerate (no dividing by zero).
pub open spec fn sample_high(s: Seq<Keyframe<i64>>) -> int {
    let low0: int = if s.len() == 0 {
        0
    } else {
        s[0].value_spec() as int
    };
    let high0: int = if s.len() == 0 {
        FX_ONE as int
    } else {
        s[s.len() - 1].value_spec() as int
    };
    if high0 == 0 || high0 == low0 {
        FX_ONE as int
    } else {
        high0
    }
}

/// One entry of the sample table a scalar sequence is resampled into: the
/// sequence's value at the `i`-th of twenty evenly spaced times, normalized
/// into the sample bounds (with half a unit standing in for the value of an
/// empty sequence).
pub open spec fn resampled_spec(s: Seq<Keyframe<i64>>, i: int) -> int {
    let d = duration_of(s);
    let t = (i * d) / 19;
    let v: int = match value_at(s, t) {
        Some(v) => v as int,
        None => FX_HALF as int,
    };
    fx_div_spec(sat64(v - sample_low(s)), sat64(sample_high(s) - sample_low(s)))
}

/// A collection of keyframes that can be played back in sequence.
pub struct AnimationSequence<T> {
    sequence: Vec<Keyframe<T>>,
    // Index of the entry the playback time currently lies in
    keyframe: Option<usize>,
    // Current playback time
    time: i64,
}

impl<T> AnimationSequence<T> {
    /// The keyframes of this sequence, in playback order.
    pub closed spec fn entries(self) -> Seq<Keyframe<T>> {
        self.sequence@
    }

    /// The current playback time.
    pub closed spec fn time_spec(self) -> int {
        self.time as int
    }

    /// The cached index of the entry at or before the playback time.
    pub closed spec fn cursor_spec(self) -> Option<int> {
        match self.keyframe {
            Some(k) => Some(k as int),
            None => None,
        }
    }

    /// The length in seconds of this sequence.
    pub open spec fn duration_spec(self) -> int {
        duration_of(self.entries())
    }

    /// The sequence invariant: entries strictly sorted by nonnegative times,
    /// playback time within `[0, duration]`, and a consistent cursor. Every
    /// operation of the engine preserves it.
    pub open spec fn wf(self) -> bool {
        &&& times_sorted(self.entries())
        &&& times_nonneg(self.entries())
        &&& 0 <= self.time_spec() <= self.duration_spec()
        &&& cursor_ok(self.entries(), self.time_spec(), self.cursor_spec())
    }

    /// Creates a new empty animation sequence.
    pub fn new() -> (r: AnimationSequence<T>)
        ensures
            r.wf(),
            r.entries().len() == 0,
            r.time_spec() == 0,
    {
        AnimationSequence::<T> { sequence: Vec::new(), keyframe: None, time: 0 }
    }

    /// Recomputes the cached cursor from the entries and the playback time.
    fn update_current_keyframe(&mut self)
        ensures
            final (self).entries() == old(self).entries(),
            final (self).time_spec() == old(self).time_spec(),
            cursor_ok(final (self).entries(), final (self).time_spec(), final (self).cursor_spec()),
    {
        let mut found: Option<usize> = None;
        let mut i: usize = 0;
        while i < self.sequence.len()
            invariant
                self.entries() == old(self).entries(),
                self.time_spec() == old(self).time_spec(),
                0 <= i <= self.entries().len(),
                match found {
                    None => forall|j: int|
                        0 <= j < i as int ==> self.entries()[j].time_spec() > self.time_spec(),
                    Some(k) => 0 <= k < i && self.entries()[k as int].time_spec()
                        <= self.time_spec() && (forall|j: int|
                        k < j < i as int ==> self.entries()[j].time_spec() > self.time_spec()),
                },
            decreases self.entries().len() - i,
        {
            let kf_time: i64 = self.sequence[i].time();
            if kf_time <= self.time {
                found = Some(i);
            }
            i = i + 1;
        }
        self.keyframe = found;
    }

    /// Runs the wrap loop on a leftover that overflowed the bounds.
    fn apply_wrap(&mut self, rem: i64)
        requires
            old(self).wf(),
            rem != 0,
        ensures
            final (self).wf(),
            final (self).entries() == old(self).entries(),
            final (self).time_spec() == wrap_steps(rem as int, old(self).duration_spec()),
        decreases fx_abs(rem as int),
    {
        let d: i64 = self.duration();
        let b: i64 = if rem < 0 {
            d
        } else {
            0
        };
        let _ = self.advance_to(b);
        let rem2: i64 = self.advance_by(rem);
        if rem2 == 0 || d == 0 {
        } else {
            self.apply_wrap(rem2);
        }
    }

    /// Advances this sequence by the signed duration specified. If the
    /// duration causes the sequence to go out of bounds it will wrap around
    /// to the opposite boundary and return `true`. A sequence of zero
    /// duration never wraps.
    pub fn advance_and_maybe_wrap(&mut self, duration: i64) -> (r: bool)
        requires
            old(self).wf(),
            i64::MIN <= old(self).time_spec() + duration <= i64::MAX,
        ensures
            final (self).wf(),
            final (self).entries() == old(self).entries(),
            final (self).time_spec() == wrap_time_spec(
                old(self).time_spec() + duration,
                old(self).duration_spec(),
            ),
            r == (old(self).duration_spec() > 0 && !(0 <= old(self).time_spec() + duration
                <= old(self).duration_spec())),
    {
        let ghost target = old(self).time_spec() + duration;
        let ghost d = old(self).duration_spec();
        let rem: i64 = self.advance_by(duration);
        if rem == 0 {
            false
        } else {
            let d_now: i64 = self.duration();
            if d_now == 0 {
                false
            } else {
                self.apply_wrap(rem);
                proof {
                    lemma_wrap_steps(rem as int, d);
                }
                true
            }
        }
    }

    /// Runs the ping-pong loop on a leftover that overflowed the bounds.
    fn apply_bounce(&mut self, rem: i64)
        requires
            old(self).wf(),
            rem != 0,
        ensures
            final (self).wf(),
            final (self).entries() == bounce_spec(old(self).entries(), rem as int).0,
            final (self).time_spec() == bounce_spec(old(self).entries(), rem as int).1,
        decreases fx_abs(rem as int),
    {
        self.reverse();
        let d2: i64 = self.duration();
        if rem < 0 {
            let _ = self.advance_to(d2);
        }
        let rem2: i64 = self.advance_by(rem);
        if rem2 == 0 || d2 == 0 {
        } else {
            self.apply_bounce(rem2);
        }
    }

    /// Advances this sequence by the signed duration specified. If the
    /// duration causes the sequence to go out of bounds the whole sequence
    /// reverses, the leftover is re-applied in the new direction (and so on:
    /// ping-pong playback), and `true` is returned. A sequence of zero
    /// duration never reverses.
    pub fn advance_and_maybe_reverse(&mut self, duration: i64) -> (r: bool)
        requires
            old(self).wf(),
            i64::MIN <= old(self).time_spec() + duration <= i64::MAX,
        ensures
            final (self).wf(),
            r == (old(self).duration_spec() > 0 && !(0 <= old(self).time_spec() + duration
                <= old(self).duration_spec())),
            !r ==> final (self).entries() == old(self).entries() && final (self).time_spec()
                == clamp_time_spec(old(self).time_spec() + duration, old(self).duration_spec()),
            r ==> final (self).entries() == bounce_spec(
                old(self).entries(),
                old(self).time_spec() + duration - clamp_time_spec(
                    old(self).time_spec() + duration,
                    old(self).duration_spec(),
                ),
            ).0,
            r ==> final (self).time_spec() == bounce_spec(
                old(self).entries(),
                old(self).time_spec() + duration - clamp_time_spec(
                    old(self).time_spec() + duration,
                    old(self).duration_spec(),
                ),
            ).1,
    {
        let rem: i64 = self.advance_by(duration);
        if rem == 0 {
            false
        } else {
            let d_now: i64 = self.duration();
            if d_now == 0 {
                false
            } else {
                self.apply_bounce(rem);
                true
            }
        }
    }

    /// The keyframe at the given position of the playback order, if any.
    pub fn get(&self, index: usize) -> (r: Option<&Keyframe<T>>)
        ensures
            match r {
                Some(kf) => index < self.entries().len() && *kf == self.entries()[index as int],
                None => index >= self.entries().len(),
            },
    {
        if index < self.sequence.len() {
            Some(&self.sequence[index])
        } else {
            None
        }
    }

    /// The number of keyframes in this sequence.
    pub fn keyframes(&self) -> (r: usize)
        ensures
            r == self.entries().len(),
    {
        self.sequence.len()
    }

    /// The length in seconds of this sequence.
    pub fn duration(&self) -> (r: i64)
        ensures
            r as int == self.duration_spec(),
            r >= 0,
    {
        if self.sequence.len() == 0 {
            0
        } else {
            self.sequence[self.sequence.len() - 1].time()
        }
    }

    /// The current playback position of this sequence in seconds.
    pub fn time(&self) -> (r: i64)
        requires
            self.wf(),
        ensures
            r as int == self.time_spec(),
            0 <= r,
    {
        self.time
    }

    /// If this sequence has finished and is at the end. It can be reset
    /// with `advance_to(0)`.
    pub fn finished(&self) -> (r: bool)
        ensures
            r == (self.time_spec() == self.duration_spec()),
    {
        self.time == self.duration()
    }

    /// The current progression of this sequence as a fixed-point fraction
    /// of its duration. Always within `[0, FX_ONE]`, and zero on a sequence
    /// of zero duration.
    pub fn progress(&self) -> (r: i64)
        requires
            self.wf(),
        ensures
            r as int == if self.duration_spec() == 0 {
                0int
            } else {
                scale_unit_spec(self.time_spec(), self.duration_spec())
            },
            0 <= r <= FX_ONE,
            self.duration_spec() == 0 ==> r == 0,
    {
        let d: i64 = self.duration();
        if d == 0 {
            0
        } else {
            scale_unit(self.time, d)
        }
    }

    /// If this sequence has a keyframe at the exact timestamp.
    pub fn has_keyframe_at(&self, timestamp: i64) -> (r: bool)
        ensures
            r == has_time_in(self.entries(), timestamp as int),
    {
        let mut i: usize = 0;
        while i < self.sequence.len()
            invariant
                0 <= i <= self.entries().len(),
                forall|j: int|
                    0 <= j < i as int ==> self.entries()[j].time_spec() != timestamp as int,
            decreases self.entries().len() - i,
        {
            if self.sequence[i].time() == timestamp {
                return true;
            }
            i = i + 1;
        }
        false
    }

    /// Inserts a new keyframe into the animation sequence.
    ///
    /// Rejected, leaving the sequence untouched, exactly when an entry
    /// already occupies the same start time; otherwise the keyframe enters
    /// at its sorted position and the playback time is unchanged.
    pub fn insert(&mut self, keyframe: Keyframe<T>) -> (r: Result<(), AnimationSequenceError>)
        requires
            old(self).wf(),
        ensures
            final (self).wf(),
            final (self).time_spec() == old(self).time_spec(),
            match r {
                Ok(()) => !has_time_in(old(self).entries(), keyframe.time_spec()) && final (
                self).entries() == sorted_insert(old(self).entries(), keyframe),
                Err(AnimationSequenceError::TimeCollision(t)) => t as int == keyframe.time_spec()
                    && has_time_in(old(self).entries(), keyframe.time_spec()) && *final (self)
                    == *old(self),
            },
    {
        let t: i64 = keyframe.time();
        if self.has_keyframe_at(t) {
            Err(AnimationSequenceError::TimeCollision(t))
        } else {
            let ghost s0 = self.entries();
            let mut pos: usize = 0;
            while pos < self.sequence.len() && self.sequence[pos].time() < t
                invariant
                    self == old(self),
                    t as int == keyframe.time_spec(),
                    0 <= pos <= self.entries().len(),
                    forall|j: int| 0 <= j < pos as int ==> self.entries()[j].time_spec() < t as int,
                decreases self.entries().len() - pos,
            {
                pos = pos + 1;
            }
            proof {
                if (pos as int) < s0.len() {
                    assert(s0[pos as int].time_spec() != t as int);
                }
                lemma_sorted_insert_at(s0, keyframe, pos as int);
            }
            self.sequence.insert(pos, keyframe);
            proof {
                let s1 = self.entries();
                assert(s1 == s0.insert(pos as int, keyframe));
                assert forall|i: int, j: int| 0 <= i < j < s1.len() implies s1[i].time_spec()
                    < s1[j].time_spec() by {
                    assert(forall|m: int|
                        0 <= m < s1.len() ==> s1[m] == if m < pos as int {
                            s0[m]
                        } else if m == pos as int {
                            keyframe
                        } else {
                            s0[m - 1]
                        });
                }
                assert(times_nonneg(s1));
                // the last entry's time never decreases
                assert(duration_of(s1) >= duration_of(s0)) by {
                    if s0.len() > 0 {
                        assert(s1[s1.len() - 1] == if pos as int == s0.len() {
                            keyframe
                        } else {
                            s0[s0.len() - 1]
                        });
                        if pos as int == s0.len() {
                            assert(s0[pos - 1].time_spec() < keyframe.time_spec());
                        }
                    }
                }
            }
            self.update_current_keyframe();
            Ok(())
        }
    }

    /// Inserts several keyframes all at once. Each keyframe is subject to
    /// the collision rule of `insert`; the first collision aborts the
    /// remaining insertions (the keyframes already inserted stay in).
    #[verifier::loop_isolation(false)]
    pub fn insert_many(&mut self, keyframes: Vec<Keyframe<T>>) -> (r: Result<
        (),
        AnimationSequenceError,
    >)
        requires
            old(self).wf(),
        ensures
            final (self).wf(),
            final (self).time_spec() == old(self).time_spec(),
            final (self).entries() == insert_all(old(self).entries(), keyframes@).0,
            match r {
                Ok(()) => insert_all(old(self).entries(), keyframes@).1 is None,
                Err(AnimationSequenceError::TimeCollision(t)) => insert_all(
                    old(self).entries(),
                    keyframes@,
                ).1 == Some(t as int),
            },
    {
        let ghost ks0 = keyframes@;
        let ghost answer = insert_all(old(self).entries(), ks0);
        let mut ks = keyframes;
        while ks.len() > 0
            invariant
                self.wf(),
                self.time_spec() == old(self).time_spec(),
                insert_all(self.entries(), ks@) == answer,
            decreases ks@.len(),
        {
            let ghost pre = self.entries();
            let ghost ks_pre = ks@;
            let k = ks.remove(0);
            proof {
                assert(ks@ =~= ks_pre.drop_first());
            }
            proof {
                assert(ks_pre[0] == k);
            }
            match self.insert(k) {
                Err(e) => {
                    proof {
                        assert(insert_all(pre, ks_pre) == (pre, Some(k.time_spec())));
                    }
                    return Err(e);
                },
                Ok(()) => {
                    proof {
                        assert(insert_all(pre, ks_pre) == insert_all(
                            sorted_insert(pre, k),
                            ks_pre.drop_first(),
                        ));
                    }
                },
            }
        }
        Ok(())
    }

    /// Creates an animation sequence from a batch of keyframes, inserting
    /// them in order and silently discarding any keyframe whose start time
    /// collides with an earlier one (first-inserted wins).
    #[verifier::loop_isolation(false)]
    pub fn from_keyframes(keyframes: Vec<Keyframe<T>>) -> (r: AnimationSequence<T>)
        ensures
            r.wf(),
            r.time_spec() == 0,
            r.entries() == insert_all_lenient(Seq::<Keyframe<T>>::empty(), keyframes@),
    {
        let ghost ks0 = keyframes@;
        let ghost answer = insert_all_lenient(Seq::<Keyframe<T>>::empty(), ks0);
        let mut me = AnimationSequence::<T>::new();
        let mut ks = keyframes;
        while ks.len() > 0
            invariant
                me.wf(),
                me.time_spec() == 0,
                insert_all_lenient(me.entries(), ks@) == answer,
            decreases ks@.len(),
        {
            let ghost pre = me.entries();
            let ghost ks_pre = ks@;
            let k = ks.remove(0);
            proof {
                assert(ks@ =~= ks_pre.drop_first());
                assert(ks_pre[0] == k);
            }
            match me.insert(k) {
                Err(_) => {
                    proof {
                        assert(insert_all_lenient(pre, ks_pre) == insert_all_lenient(
                            pre,
                            ks_pre.drop_first(),
                        ));
                    }
                },
                Ok(()) => {
                    proof {
                        assert(insert_all_lenient(pre, ks_pre) == insert_all_lenient(
                            sorted_insert(pre, k),
                            ks_pre.drop_first(),
                        ));
                    }
                },
            }
        }
        me
    }

    /// Removes the keyframe from the sequence at the specified time.
    /// Returns whether a keyframe was actually removed. The playback time is
    /// clamped down to the new duration if it now exceeds it.
    #[verifier::loop_isolation(false)]
    pub fn remove(&mut self, timestamp: i64) -> (r: bool)
        requires
            old(self).wf(),
        ensures
            final (self).wf(),
            r == has_time_in(old(self).entries(), timestamp as int),
            r ==> exists|i: int|
                0 <= i < old(self).entries().len() && old(self).entries()[i].time_spec()
                    == timestamp as int && final (self).entries() == old(self).entries().remove(i),
            !r ==> *final (self) == *old(self),
            final (self).time_spec() == clamp_time_spec(
                old(self).time_spec(),
                duration_of(final (self).entries()),
            ),
    {
        let ghost s0 = self.entries();
        let mut idx: Option<usize> = None;
        let mut i: usize = 0;
        while i < self.sequence.len()
            invariant
                0 <= i <= s0.len(),
                match idx {
                    None => forall|j: int|
                        0 <= j < i as int ==> s0[j].time_spec() != timestamp as int,
                    Some(k) => 0 <= k < i && s0[k as int].time_spec() == timestamp as int,
                },
            decreases s0.len() - i,
        {
            if self.sequence[i].time() == timestamp {
                idx = Some(i);
            }
            i = i + 1;
        }
        match idx {
            None => false,
            Some(k) => {
                self.sequence.remove(k);
                proof {
                    let s1 = self.entries();
                    assert(s1 == s0.remove(k as int));
                    assert(forall|m: int|
                        0 <= m < s1.len() ==> s1[m] == if m < k as int {
                            s0[m]
                        } else {
                            s0[m + 1]
                        });
                    assert(times_sorted(s1));
                    assert(times_nonneg(s1));
                    assert(duration_of(s1) <= duration_of(s0));
                    assert(duration_of(s1) >= 0);
                }
                let d: i64 = self.duration();
                if self.time > d {
                    self.time = d;
                }
                self.update_current_keyframe();
                true
            },
        }
    }

    /// Removes all keyframes from this sequence and rewinds it.
    pub fn clear(&mut self)
        ensures
            final (self).wf(),
            final (self).entries().len() == 0,
            final (self).time_spec() == 0,
    {
        self.sequence.clear();
        self.time = 0;
        self.keyframe = None;
    }

    /// Retains only the keyframes whose start time the predicate accepts,
    /// keeping their order. Returns whether any keyframe was removed. The
    /// playback time is clamped down to the new duration if it now exceeds
    /// it.
    #[verifier::loop_isolation(false)]
    #[verifier::rlimit(80)]
    pub fn retain<F: Fn(i64) -> bool>(&mut self, f: F) -> (r: bool)
        requires
            old(self).wf(),
            forall|t: i64| #[trigger] f.requires((t,)),
        ensures
            final (self).wf(),
            exists|mask: Seq<bool>|
                mask.len() == old(self).entries().len() && final (self).entries() == mask_filter(
                    old(self).entries(),
                    mask,
                ) && (forall|i: int|
                    0 <= i < mask.len() ==> f.ensures(
                        (old(self).entries()[i].time_spec() as i64,),
                        #[trigger] mask[i],
                    )),
            r == (final (self).entries().len() != old(self).entries().len()),
            final (self).time_spec() == clamp_time_spec(
                old(self).time_spec(),
                duration_of(final (self).entries()),
            ),
    {
        let ghost s0 = self.entries();
        let n0: usize = self.sequence.len();
        let mut source: Vec<Keyframe<T>> = Vec::new();
        core::mem::swap(&mut source, &mut self.sequence);
        let ghost mut mask: Seq<bool> = Seq::empty();
        proof {
            assert(source@ =~= s0.subrange(0, s0.len() as int));
            assert(self.sequence@ =~= mask_filter(s0.take(0), mask));
            assert(self.sequence@ + source@ =~= s0);
        }
        while source.len() > 0
            invariant
                mask.len() + source@.len() == s0.len(),
                source@ == s0.subrange(mask.len() as int, s0.len() as int),
                self.sequence@ == mask_filter(s0.take(mask.len() as int), mask),
                forall|j: int|
                    0 <= j < mask.len() ==> f.ensures(
                        (s0[j].time_spec() as i64,),
                        #[trigger] mask[j],
                    ),
                times_sorted(self.sequence@ + source@),
                self.time == old(self).time,
                self.keyframe == old(self).keyframe,
            decreases source@.len(),
        {
            let ghost kept_pre = self.sequence@;
            let ghost mask_pre = mask;
            let ghost processed = mask.len() as int;
            let kf = source.remove(0);
            proof {
                assert(kf == s0[processed]);
                assert(source@ =~= s0.subrange(processed + 1, s0.len() as int));
            }
            let keep: bool = f(kf.time());
            proof {
                mask = mask.push(keep);
                let p1 = s0.take(processed + 1);
                assert(p1.drop_last() =~= s0.take(processed));
                assert(mask.drop_last() =~= mask_pre);
                assert(p1.last() == kf);
                assert(mask_filter(p1, mask) == if keep {
                    mask_filter(s0.take(processed), mask_pre).push(kf)
                } else {
                    mask_filter(s0.take(processed), mask_pre)
                });
            }
            if keep {
                self.sequence.push(kf);
                proof {
                    assert(self.sequence@ + source@ =~= kept_pre + s0.subrange(
                        processed,
                        s0.len() as int,
                    ));
                }
            } else {
                proof {
                    let before = kept_pre + s0.subrange(processed, s0.len() as int);
                    let after = self.sequence@ + source@;
                    assert(forall|m: int|
                        0 <= m < after.len() ==> after[m] == if m < kept_pre.len() {
                            before[m]
                        } else {
                            before[m + 1]
                        });
                    assert(times_sorted(after));
                }
            }
        }
        proof {
            assert(s0.take(mask.len() as int) =~= s0);
            assert(self.sequence@ + source@ =~= self.sequence@);
            assert(times_sorted(self.entries()));
            assert forall|j: int| 0 <= j < self.entries().len() implies self.entries()[
                j
            ].time_spec() >= 0 by {
                lemma_mask_filter_member(s0, mask, j);
            }
            assert(duration_of(self.entries()) <= duration_of(s0)) by {
                if self.entries().len() > 0 {
                    lemma_mask_filter_member(s0, mask, self.entries().len() - 1);
                }
            }
        }
        proof {
            assert(mask.len() == s0.len() && self.entries() == mask_filter(s0, mask) && (
            forall|i: int|
                0 <= i < mask.len() ==> f.ensures((s0[i].time_spec() as i64,), #[trigger] mask[i])));
        }
        let d: i64 = self.duration();
        if self.time > d {
            self.time = d;
        }
        self.update_current_keyframe();
        self.sequence.len() != n0
    }

    /// Reverses this sequence in place: every keyframe's start time becomes
    /// `duration - old time`, the order flips back to ascending, and the
    /// playback time rewinds to zero.
    #[verifier::loop_isolation(false)]
    pub fn reverse(&mut self)
        requires
            old(self).wf(),
        ensures
            final (self).wf(),
            final (self).entries() == reversed_entries(old(self).entries()),
            final (self).time_spec() == 0,
    {
        let d: i64 = self.duration();
        let ghost s0 = self.entries();
        let mut rev: Vec<Keyframe<T>> = Vec::new();
        while self.sequence.len() > 0
            invariant
                rev@.len() + self.sequence@.len() == s0.len(),
                self.sequence@ == s0.take(self.sequence@.len() as int),
                forall|j: int| 0 <= j < rev@.len() ==> rev@[j] == #[trigger] reversed_entries(s0)[j],
                self.time == old(self).time,
                self.keyframe == old(self).keyframe,
            decreases self.sequence@.len(),
        {
            let ghost m = self.sequence@.len() as int;
            let kf = self.sequence.pop().unwrap();
            proof {
                assert(kf == s0[m - 1]);
                assert(self.sequence@ =~= s0.take(m - 1));
            }
            let t: i64 = kf.time();
            proof {
                if m - 1 < s0.len() - 1 {
                    assert(s0[m - 1].time_spec() < s0[s0.len() - 1].time_spec());
                }
            }
            let nt: i64 = d - t;
            rev.push(kf.with_time(nt));
        }
        self.sequence = rev;
        self.time = 0;
        proof {
            let s1 = self.entries();
            assert(s1 =~= reversed_entries(s0));
            assert forall|i: int, j: int| 0 <= i < j < s1.len() implies s1[i].time_spec() < s1[
                j
            ].time_spec() by {
                assert(s0[s0.len() - 1 - j].time_spec() < s0[s0.len() - 1 - i].time_spec());
            }
            assert forall|i: int| 0 <= i < s1.len() implies s1[i].time_spec() >= 0 by {
                if s0.len() - 1 - i < s0.len() - 1 {
                    assert(s0[s0.len() - 1 - i].time_spec() < s0[s0.len() - 1].time_spec());
                }
            }
            if s1.len() > 0 {
                assert(duration_of(s1) == s1[s1.len() - 1].time_spec());
                assert(s1[s1.len() - 1].time_spec() == duration_of(s0) - s0[0].time_spec());
            }
        }
        self.update_current_keyframe();
    }

    /// The current pair of keyframes that are being animated: (current,
    /// next).
    ///
    /// With no keyframes, `(None, None)` is returned; before the first
    /// keyframe, `(None, current)`; at or past the last keyframe,
    /// `(current, None)`.
    pub fn pair(&self) -> (r: (Option<&Keyframe<T>>, Option<&Keyframe<T>>))
        requires
            self.wf(),
        ensures
            match self.cursor_spec() {
                None => r.0 is None && (if self.entries().len() == 0 {
                    r.1 is None
                } else {
                    r.1 matches Some(b) && *b == self.entries()[0]
                }),
                Some(k) => (r.0 matches Some(a) && *a == self.entries()[k]) && (if k
                    == self.entries().len() - 1 {
                    r.1 is None
                } else {
                    r.1 matches Some(b) && *b == self.entries()[k + 1]
                }),
            },
    {
        match self.keyframe {
            Some(c) => {
                if c == self.sequence.len() - 1 {
                    (Some(&self.sequence[c]), None)
                } else {
                    (Some(&self.sequence[c]), Some(&self.sequence[c + 1]))
                }
            },
            None => {
                if self.sequence.len() > 0 {
                    (None, Some(&self.sequence[0]))
                } else {
                    (None, None)
                }
            },
        }
    }

    /// Advances this sequence to the exact timestamp, clamped into
    /// `[0, duration]`.
    ///
    /// Returns the overflow: the signed amount by which the requested
    /// timestamp went outside the bounds of this sequence. A value over
    /// zero means the sequence is at the finish point; a value under zero
    /// means it is at the start point.
    pub fn advance_to(&mut self, timestamp: i64) -> (r: i64)
        requires
            old(self).wf(),
        ensures
            final (self).wf(),
            final (self).entries() == old(self).entries(),
            final (self).time_spec() == clamp_time_spec(timestamp as int, old(self).duration_spec()),
            r as int == timestamp - final (self).time_spec(),
    {
        let d: i64 = self.duration();
        self.time = if timestamp < 0 {
            0
        } else if timestamp > d {
            d
        } else {
            timestamp
        };
        self.update_current_keyframe();
        timestamp - self.time
    }

    /// Advances this sequence by the signed duration specified, clamping
    /// the playback time into `[0, duration]`.
    ///
    /// Returns the overflow, as `advance_to` does.
    pub fn advance_by(&mut self, duration: i64) -> (r: i64)
        requires
            old(self).wf(),
            i64::MIN <= old(self).time_spec() + duration <= i64::MAX,
        ensures
            final (self).wf(),
            final (self).entries() == old(self).entries(),
            final (self).time_spec() == clamp_time_spec(
                old(self).time_spec() + duration,
                old(self).duration_spec(),
            ),
            r as int == old(self).time_spec() + duration - final (self).time_spec(),
    {
        let target: i64 = self.time + duration;
        self.advance_to(target)
    }
}

impl<T: CanTween> AnimationSequence<T> {
    /// The current value of this sequence, as far as the existing entries
    /// determine one: the blend of the active pair at the playback time, the
    /// nearest entry's value at or beyond the ends, and nothing at all on an
    /// empty sequence.
    pub open spec fn now_strict_spec(self) -> Option<T> {
        match self.cursor_spec() {
            None => if self.entries().len() == 0 {
                None
            } else {
                Some(self.entries()[0].value_spec())
            },
            Some(k) => if k == self.entries().len() - 1 {
                Some(self.entries()[k].value_spec())
            } else {
                Some(self.entries()[k].tween_spec(self.entries()[k + 1], self.time_spec()))
            },
        }
    }

    /// The current value of this sequence in the lenient reading: before the
    /// first keyframe the value blends linearly from the type's zero value
    /// at time zero, and an empty sequence yields the zero value itself.
    pub open spec fn now_lenient_spec(self) -> T {
        match self.cursor_spec() {
            None => if self.entries().len() == 0 {
                T::zero_spec()
            } else {
                T::ease_spec(
                    T::zero_spec(),
                    self.entries()[0].value_spec(),
                    scale_unit_spec(self.time_spec(), self.entries()[0].time_spec()),
                )
            },
            Some(k) => if k == self.entries().len() - 1 {
                self.entries()[k].value_spec()
            } else {
                self.entries()[k].tween_spec(self.entries()[k + 1], self.time_spec())
            },
        }
    }

    /// The current value of this sequence, only based on the existing
    /// sequence entries. Returns nothing exactly when the sequence is empty.
    pub fn now_strict(&self) -> (r: Option<T>)
        requires
            self.wf(),
        ensures
            r == self.now_strict_spec(),
            r is None <==> self.entries().len() == 0,
    {
        match self.pair() {
            (Some(s1), Some(s2)) => Some(s1.tween_to(s2, self.time)),
            (Some(s1), None) => Some(s1.value()),
            (None, Some(s2)) => Some(s2.value()),
            (None, None) => None,
        }
    }

    /// The current value of this sequence, substituting the type's zero
    /// value where the entries determine none. Never fails.
    pub fn now(&self) -> (r: T)
        requires
            self.wf(),
        ensures
            r == self.now_lenient_spec(),
    {
        match self.pair() {
            (Some(s1), Some(s2)) => s1.tween_to(s2, self.time),
            (Some(s1), None) => s1.value(),
            (None, Some(s2)) => {
                let x: i64 = scale_unit(self.time, s2.time());
                T::ease(T::zero_value(), s2.value(), x)
            },
            (None, None) => T::zero_value(),
        }
    }
}

impl AnimationSequence<i64> {
    /// Consumes this sequence and creates a normalized easing function
    /// controlled by its keyframes, by resampling it at twenty evenly
    /// spaced points across its duration (only scalar sequences correspond
    /// to a 2D curve, each value being a Y position).
    #[verifier::loop_isolation(false)]
    pub fn to_easing_function(self) -> (r: Keyframes)
        requires
            self.wf(),
        ensures
            forall|i: int| 0 <= i < 20 ==> r.0[i] as int == resampled_spec(self.entries(), i),
    {
        let mut s = self;
        let ghost e0 = s.entries();
        let n: usize = s.keyframes();
        let low0: i64 = if n == 0 {
            0
        } else {
            s.sequence[0].value()
        };
        let high0: i64 = if n == 0 {
            FX_ONE
        } else {
            s.sequence[n - 1].value()
        };
        let (low, high): (i64, i64) = if high0 == 0 || high0 == low0 {
            (0, FX_ONE)
        } else {
            (low0, high0)
        };
        let max_time: i64 = s.duration();
        let mut table: [i64; 20] = [0;20];
        let mut i: usize = 0;
        while i < 20
            invariant
                s.wf(),
                s.entries() == e0,
                0 <= i <= 20,
                forall|j: int| 0 <= j < i as int ==> table[j] as int == resampled_spec(e0, j),
            decreases 20 - i,
        {
            proof {
                assert((i as int) * (max_time as int) <= 19 * (max_time as int))
                    by (nonlinear_arith)
                    requires
                        0 <= i < 20,
                        max_time >= 0,
                ;
                assert((i as int) * (max_time as int) / 19 <= 19 * (max_time as int) / 19)
                    by (nonlinear_arith)
                    requires
                        0 <= (i as int) * (max_time as int) <= 19 * (max_time as int),
                ;
                assert(19 * (max_time as int) / 19 == max_time as int) by (nonlinear_arith);
                assert((i as int) * (max_time as int) / 19 >= 0) by (nonlinear_arith)
                    requires
                        0 <= i,
                        max_time >= 0,
                ;
            }
            let t: i64 = (((i as u128) * (max_time as u128)) / 19) as i64;
            let _ = s.advance_to(t);
            let v: i64 = match s.now_strict() {
                Some(v) => v,
                None => FX_HALF,
            };
            proof {
                lemma_active_index_agrees(e0, t as int, s.cursor_spec());
            }
            let num: i64 = sat_i128((v as i128) - (low as i128));
            let den: i64 = sat_i128((high as i128) - (low as i128));
            table[i] = fx_div(num, den);
            i = i + 1;
        }
        Keyframes(table)
    }
}

/// The cached cursor is an optimization only: on a well-formed sequence
/// the strict query observes exactly the value the entries and the playback
/// time determine from scratch.
pub proof fn lemma_now_strict_is_value_at<T: CanTween>(s: AnimationSequence<T>)
    requires
        s.wf(),
    ensures
        s.now_strict_spec() == value_at(s.entries(), s.time_spec()),
{
    lemma_active_index_agrees(s.entries(), s.time_spec(), s.cursor_spec());
}

/// The playback time of a well-formed sequence always lies within
/// `[0, duration]`; every operation of the engine keeps it there.
pub proof fn lemma_playback_within_bounds<T>(s: AnimationSequence<T>)
    requires
        s.wf(),
    ensures
        0 <= s.time_spec() <= s.duration_spec(),
{
}

/// The entries of a well-formed sequence are strictly sorted ascending by
/// time — so, in particular, no two entries share a time; every operation
/// of the engine keeps them so.
pub proof fn lemma_entries_strictly_sorted<T>(s: AnimationSequence<T>)
    requires
        s.wf(),
    ensures
        forall|i: int, j: int|
            0 <= i < j < s.entries().len() ==> s.entries()[i].time_spec() < s.entries()[
                j
            ].time_spec(),
        forall|i: int, j: int|
            0 <= i < j < s.entries().len() ==> s.entries()[i].time_spec() != s.entries()[
                j
            ].time_spec(),
{
}

/// Reversal is an involution: reversing twice restores every (value, time,
/// curve) triple and the duration, on any sorted sequence whose first entry
/// starts at time zero (with a positive first start time the first reversal
/// shrinks the duration by it, so such sequences are left out).
pub proof fn lemma_reverse_involution<T>(s: Seq<Keyframe<T>>)
    requires
        times_sorted(s),
        times_nonneg(s),
        s.len() > 0 ==> s[0].time_spec() == 0,
    ensures
        duration_of(reversed_entries(s)) == duration_of(s),
        reversed_entries(reversed_entries(s)) == s,
{
    broadcast use crate::keyframe::Keyframe::lemma_retimed_spec;

    if s.len() == 0 {
        assert(reversed_entries(reversed_entries(s)) =~= s);
    } else {
        let n = s.len();
        let d = duration_of(s);
        let r = reversed_entries(s);
        assert(forall|k: int| 0 <= k < n ==> s[k].time_spec() <= d);
        assert(r[n - 1] == s[0].retimed_spec(d - s[0].time_spec()));
        assert(r[n - 1].time_spec() == d - s[0].time_spec());
        assert(duration_of(r) == d);
        let rr = reversed_entries(r);
        assert forall|i: int| 0 <= i < n implies rr[i] == s[i] by {
            assert(r[n - 1 - i] == s[i].retimed_spec(d - s[i].time_spec()));
            assert(r[n - 1 - i].time_spec() == d - s[i].time_spec());
            assert(rr[i] == r[n - 1 - i].retimed_spec(d - r[n - 1 - i].time_spec()));
            assert(rr[i].time_spec() == s[i].time_spec());
            assert(rr[i].value_spec() == s[i].value_spec());
            assert(rr[i].function_spec() == s[i].function_spec());
            Keyframe::<T>::lemma_ext(rr[i], s[i]);
        }
        assert(rr =~= s);
    }
}

} // verus!
