use keyframe::AnimationSequence;
use keyframe::AnimationSequenceError;
use keyframe::Curve;
use keyframe::Keyframe;
use keyframe::FX_ONE;
use keyframe::Vector2;

fn kf(value: i64, time: i64) -> Keyframe<i64> {
    Keyframe::new(value, time, Curve::InOutCubic)
}

fn kf_linear(value: i64, time: i64) -> Keyframe<i64> {
    Keyframe::new(value, time, Curve::Linear)
}

// Scenario: three keyframes, the middle one linear; advancing lands halfway
// through the linear segment.
#[test]
fn three_keyframes_linear_segment() {
    let mut sequence = AnimationSequence::from_keyframes(vec![
        kf(500_000, 0),
        kf_linear(1_500_000, 300_000),
        kf(2_500_000, 1_000_000),
    ]);
    sequence.advance_by(650_000);
    assert_eq!(sequence.now(), 2_000_000);
    assert_eq!(sequence.duration(), 1_000_000);
}

// Scenario: tween_to boundary rules on a two-keyframe linear pair.
#[test]
fn tween_to_boundary_rules() {
    let a = kf_linear(0, 0);
    let b = kf_linear(10_000_000, FX_ONE);
    assert_eq!(a.tween_to(&b, -500_000), 0);
    assert_eq!(a.tween_to(&b, 1_500_000), 10_000_000);
    assert_eq!(a.tween_to(&b, 500_000), 5_000_000);
}

#[test]
fn tween_to_degenerate_pairs() {
    // the next keyframe starts before this one: its value wins
    let a = kf_linear(1, 800_000);
    let b = kf_linear(2, 200_000);
    assert_eq!(a.tween_to(&b, 800_000), 2);
    // equal start times are degenerate as well
    let c = kf_linear(3, 500_000);
    let d = kf_linear(4, 500_000);
    assert_eq!(c.tween_to(&d, 500_000), 4);
}

// Scenario: inserting at an occupied time returns the collision error and
// leaves the sequence unchanged.
#[test]
fn insert_collision_rejected() {
    let mut sequence = AnimationSequence::from_keyframes(vec![kf(1, 0), kf(2, 300_000)]);
    let count_before = sequence.keyframes();
    let result = sequence.insert(kf(9, 300_000));
    assert_eq!(result, Err(AnimationSequenceError::TimeCollision(300_000)));
    assert_eq!(sequence.keyframes(), count_before);
    assert_eq!(sequence.get(1).unwrap().value(), 2);
}

// Scenario: wrapping playback on a sequence of duration 2.0, starting at
// 1.5, advancing by 1.0 lands at 0.5 and reports the wrap.
#[test]
fn wrap_around_lands_at_leftover() {
    let mut sequence =
        AnimationSequence::from_keyframes(vec![kf_linear(0, 0), kf_linear(1, 2_000_000)]);
    sequence.advance_to(1_500_000);
    let wrapped = sequence.advance_and_maybe_wrap(1_000_000);
    assert!(wrapped);
    assert_eq!(sequence.time(), 500_000);
}

// Scenario: the empty sequence has no strict value, a zero lenient value,
// and zero duration.
#[test]
fn empty_sequence_queries() {
    let sequence = AnimationSequence::<i64>::new();
    assert_eq!(sequence.now_strict(), None);
    assert_eq!(sequence.now(), 0);
    assert_eq!(sequence.duration(), 0);
}

// Round-trip: batch construction keeps exactly one entry per time, the
// first inserted one.
#[test]
fn duplicate_time_keeps_first() {
    let sequence = AnimationSequence::from_keyframes(vec![kf(7, 500_000), kf(8, 500_000)]);
    assert_eq!(sequence.keyframes(), 1);
    assert_eq!(sequence.get(0).unwrap().value(), 7);
}

#[test]
fn insert_many_aborts_on_first_collision() {
    let mut sequence = AnimationSequence::new();
    let result = sequence.insert_many(vec![kf(1, 100_000), kf(2, 200_000), kf(3, 200_000), kf(
        4, 300_000,
    )]);
    assert_eq!(result, Err(AnimationSequenceError::TimeCollision(200_000)));
    // the keyframes before the collision stay in
    assert_eq!(sequence.keyframes(), 2);
    assert!(sequence.has_keyframe_at(100_000));
    assert!(sequence.has_keyframe_at(200_000));
    assert!(!sequence.has_keyframe_at(300_000));
}

// Playback time stays within [0, duration] however far an advance shoots.
#[test]
fn advance_clamps_to_bounds() {
    let mut sequence =
        AnimationSequence::from_keyframes(vec![kf_linear(0, 0), kf_linear(1, 1_000_000)]);
    let overflow = sequence.advance_by(5_000_000);
    assert_eq!(sequence.time(), 1_000_000);
    assert_eq!(overflow, 4_000_000);
    assert!(sequence.finished());
    let underflow = sequence.advance_by(-9_000_000);
    assert_eq!(sequence.time(), 0);
    assert_eq!(underflow, -8_000_000);
    let inside = sequence.advance_to(250_000);
    assert_eq!(inside, 0);
    assert_eq!(sequence.time(), 250_000);
}

// Entries remain strictly sorted ascending by time after insertions in
// arbitrary order.
#[test]
fn entries_sorted_after_insertions() {
    let mut sequence = AnimationSequence::new();
    assert!(sequence.insert(kf(3, 900_000)).is_ok());
    assert!(sequence.insert(kf(1, 100_000)).is_ok());
    assert!(sequence.insert(kf(2, 400_000)).is_ok());
    assert_eq!(sequence.keyframes(), 3);
    let mut previous = -1i64;
    for i in 0..sequence.keyframes() {
        let t = sequence.get(i).unwrap().time();
        assert!(previous < t);
        previous = t;
    }
}

#[test]
fn progress_stays_normalized() {
    let mut sequence =
        AnimationSequence::from_keyframes(vec![kf_linear(0, 0), kf_linear(1, 2_000_000)]);
    assert_eq!(sequence.progress(), 0);
    sequence.advance_to(500_000);
    assert_eq!(sequence.progress(), 250_000);
    sequence.advance_to(2_000_000);
    assert_eq!(sequence.progress(), FX_ONE);

    // zero duration always reads as zero progress
    let empty = AnimationSequence::<i64>::new();
    assert_eq!(empty.progress(), 0);
}

#[test]
fn reverse_remaps_times_and_rewinds() {
    let mut sequence = AnimationSequence::from_keyframes(vec![
        kf_linear(1, 0),
        kf_linear(2, 400_000),
        kf_linear(3, 1_000_000),
    ]);
    sequence.advance_to(700_000);
    sequence.reverse();
    assert_eq!(sequence.time(), 0);
    assert_eq!(sequence.keyframes(), 3);
    assert_eq!(sequence.get(0).unwrap().time(), 0);
    assert_eq!(sequence.get(0).unwrap().value(), 3);
    assert_eq!(sequence.get(1).unwrap().time(), 600_000);
    assert_eq!(sequence.get(1).unwrap().value(), 2);
    assert_eq!(sequence.get(2).unwrap().time(), 1_000_000);
    assert_eq!(sequence.get(2).unwrap().value(), 1);
}

// Reversing twice restores every (value, time) pair when the first
// keyframe starts at zero.
#[test]
fn reverse_twice_restores_entries() {
    let mut sequence = AnimationSequence::from_keyframes(vec![
        kf_linear(1, 0),
        kf_linear(2, 400_000),
        kf_linear(3, 1_000_000),
    ]);
    sequence.reverse();
    sequence.reverse();
    assert_eq!(sequence.duration(), 1_000_000);
    let expected = [(1, 0i64), (2, 400_000), (3, 1_000_000)];
    for (i, (v, t)) in expected.iter().enumerate() {
        assert_eq!(sequence.get(i).unwrap().value(), *v);
        assert_eq!(sequence.get(i).unwrap().time(), *t);
    }
}

#[test]
fn ping_pong_reverses_and_replays_leftover() {
    let mut sequence =
        AnimationSequence::from_keyframes(vec![kf_linear(0, 0), kf_linear(1, 2_000_000)]);
    sequence.advance_to(1_500_000);
    let reversed = sequence.advance_and_maybe_reverse(1_000_000);
    assert!(reversed);
    assert_eq!(sequence.time(), 500_000);
    // the time axis flipped: the value 1 now sits at time 0
    assert_eq!(sequence.get(0).unwrap().value(), 1);
    // an in-bounds advance reverses nothing
    let reversed_again = sequence.advance_and_maybe_reverse(100_000);
    assert!(!reversed_again);
    assert_eq!(sequence.time(), 600_000);
}

// A zero-length sequence treats any advance as immediately finished:
// no wrap, no reversal, no spinning.
#[test]
fn zero_duration_never_wraps_or_reverses() {
    let mut sequence = AnimationSequence::from_keyframes(vec![kf_linear(5, 0)]);
    assert!(!sequence.advance_and_maybe_wrap(1_000_000));
    assert_eq!(sequence.time(), 0);
    assert!(!sequence.advance_and_maybe_reverse(-3_000_000));
    assert_eq!(sequence.time(), 0);
}

#[test]
fn remove_clamps_playback_time() {
    let mut sequence = AnimationSequence::from_keyframes(vec![
        kf_linear(1, 0),
        kf_linear(2, 500_000),
        kf_linear(3, 1_000_000),
    ]);
    sequence.advance_to(900_000);
    assert!(!sequence.remove(123_456));
    assert_eq!(sequence.keyframes(), 3);
    assert!(sequence.remove(1_000_000));
    assert_eq!(sequence.keyframes(), 2);
    assert_eq!(sequence.duration(), 500_000);
    assert_eq!(sequence.time(), 500_000);
}

#[test]
fn retain_filters_by_time() {
    let mut sequence = AnimationSequence::from_keyframes(vec![
        kf_linear(1, 0),
        kf_linear(2, 300_000),
        kf_linear(3, 600_000),
        kf_linear(4, 900_000),
    ]);
    sequence.advance_to(800_000);
    let removed = sequence.retain(|t| t < 500_000);
    assert!(removed);
    assert_eq!(sequence.keyframes(), 2);
    assert_eq!(sequence.duration(), 300_000);
    assert_eq!(sequence.time(), 300_000);
    let removed_nothing = sequence.retain(|_| true);
    assert!(!removed_nothing);
}

#[test]
fn clear_empties_and_rewinds() {
    let mut sequence = AnimationSequence::from_keyframes(vec![kf(1, 0), kf(2, 700_000)]);
    sequence.advance_to(600_000);
    sequence.clear();
    assert_eq!(sequence.keyframes(), 0);
    assert_eq!(sequence.time(), 0);
    assert_eq!(sequence.now_strict(), None);
}

#[test]
fn negative_keyframe_time_clamps_to_zero() {
    let keyframe = Keyframe::new(42, -700_000, Curve::Linear);
    assert_eq!(keyframe.time(), 0);
    assert_eq!(keyframe.value(), 42);
}

// Before the first keyframe the lenient value blends up from zero while
// the strict value shows the first keyframe unchanged.
#[test]
fn before_first_keyframe_lenient_vs_strict() {
    let mut sequence = AnimationSequence::from_keyframes(vec![kf_linear(2_000_000, 1_000_000)]);
    sequence.advance_to(500_000);
    assert_eq!(sequence.now(), 1_000_000);
    assert_eq!(sequence.now_strict(), Some(2_000_000));
}

// The engine is generic: a sequence of 2D vectors blends component-wise.
#[test]
fn vector_valued_sequence() {
    let mut sequence = AnimationSequence::from_keyframes(vec![
        Keyframe::new(Vector2 { x: 0i64, y: 0i64 }, 0, Curve::Linear),
        Keyframe::new(
            Vector2 {
                x: 2_000_000i64,
                y: 4_000_000i64,
            },
            1_000_000,
            Curve::Linear,
        ),
    ]);
    sequence.advance_to(500_000);
    let v = sequence.now();
    assert_eq!(v.x, 1_000_000);
    assert_eq!(v.y, 2_000_000);
    // the lenient value of an empty vector sequence is the zero vector
    let empty = AnimationSequence::<Vector2<i64>>::new();
    let zero = empty.now();
    assert_eq!(zero.x, 0);
    assert_eq!(zero.y, 0);
}

#[test]
fn pair_reports_active_neighbors() {
    let mut sequence = AnimationSequence::from_keyframes(vec![
        kf_linear(1, 100_000),
        kf_linear(2, 500_000),
        kf_linear(3, 900_000),
    ]);
    // before the first keyframe
    let (current, next) = sequence.pair();
    assert!(current.is_none());
    assert_eq!(next.unwrap().value(), 1);
    // between the second and the third
    sequence.advance_to(600_000);
    let (current, next) = sequence.pair();
    assert_eq!(current.unwrap().value(), 2);
    assert_eq!(next.unwrap().value(), 3);
    // at the end
    sequence.advance_to(900_000);
    let (current, next) = sequence.pair();
    assert_eq!(current.unwrap().value(), 3);
    assert!(next.is_none());
}
