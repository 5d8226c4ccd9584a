use keyframe::AnimationSequence;
use keyframe::BezierCurve;
use keyframe::Curve;
use keyframe::EaseIn;
use keyframe::EaseInOutQuad;
use keyframe::EaseInQuad;
use keyframe::EaseInOutQuart;
use keyframe::EaseInOutQuint;
use keyframe::EaseInQuart;
use keyframe::EaseInQuint;
use keyframe::EaseOutQuart;
use keyframe::EaseOutQuint;
use keyframe::EaseOutCubic;
use keyframe::EaseOutQuad;
use keyframe::EasingFunction;
use keyframe::Hold;
use keyframe::Keyframe;
use keyframe::Keyframes;
use keyframe::Linear;
use keyframe::Step;
use keyframe::Vector2;
use keyframe::ease;
use keyframe::ease_elementwise;
use keyframe::ease_in;
use keyframe::ease_in_out;
use keyframe::ease_out;
use keyframe::ease_with_scaled_time;
use keyframe::ease_with_unbounded_time;
use keyframe::fx_blend;
use keyframe::linear;
use keyframe::FX_ONE;

const HALF: i64 = FX_ONE / 2;

#[test]
fn linear_curve_is_identity() {
    assert_eq!(Linear.y(0), 0);
    assert_eq!(Linear.y(HALF), HALF);
    assert_eq!(Linear.y(FX_ONE), FX_ONE);
    assert_eq!(Linear.y(-123_456), -123_456);
}

#[test]
fn step_curve_rounds_half_away_from_zero() {
    assert_eq!(Step.y(0), 0);
    assert_eq!(Step.y(400_000), 0);
    assert_eq!(Step.y(HALF), FX_ONE);
    assert_eq!(Step.y(FX_ONE), FX_ONE);
    assert_eq!(Step.y(-400_000), 0);
    assert_eq!(Step.y(-500_000), -FX_ONE);
}

#[test]
fn hold_curve_stays_at_start() {
    assert_eq!(Hold.y(0), 0);
    assert_eq!(Hold.y(HALF), 0);
    assert_eq!(Hold.y(FX_ONE), 0);
}

#[test]
fn polynomial_curves_exact_midpoints() {
    // x^2 at one half is one quarter
    assert_eq!(EaseInQuad.y(HALF), 250_000);
    // x * (2 - x) at one half is three quarters
    assert_eq!(EaseOutQuad.y(HALF), 750_000);
    // the symmetric quadratic passes through the center
    assert_eq!(EaseInOutQuad.y(HALF), HALF);
    assert_eq!(EaseInOutQuad.y(250_000), 125_000);
    // x^3 at one half is one eighth
    assert_eq!(EaseIn.y(HALF), 125_000);
    // 1 + (x - 1)^3 at one half is seven eighths
    assert_eq!(EaseOutCubic.y(HALF), 875_000);
    // x^5 at one half is one thirty-second
    assert_eq!(EaseInQuint.y(HALF), 31_250);
}

#[test]
fn quartic_and_quintic_midpoints() {
    // x^4 at one half is one sixteenth
    assert_eq!(EaseInQuart.y(HALF), 62_500);
    // 1 - (x - 1)^4 at one half is fifteen sixteenths
    assert_eq!(EaseOutQuart.y(HALF), 937_500);
    // the symmetric quartic passes through the center
    assert_eq!(EaseInOutQuart.y(HALF), HALF);
    // 1 + (x - 1)^5 at one half
    assert_eq!(EaseOutQuint.y(HALF), 968_750);
    // the symmetric quintic passes through the center
    assert_eq!(EaseInOutQuint.y(HALF), HALF);
}

#[test]
fn curves_hit_both_endpoints() {
    assert_eq!(EaseInQuad.y(0), 0);
    assert_eq!(EaseInQuad.y(FX_ONE), FX_ONE);
    assert_eq!(EaseOutQuad.y(0), 0);
    assert_eq!(EaseOutQuad.y(FX_ONE), FX_ONE);
    assert_eq!(EaseInOutQuad.y(0), 0);
    assert_eq!(EaseInOutQuad.y(FX_ONE), FX_ONE);
    assert_eq!(EaseIn.y(FX_ONE), FX_ONE);
    assert_eq!(EaseOutCubic.y(FX_ONE), FX_ONE);
    assert_eq!(EaseInQuint.y(FX_ONE), FX_ONE);
}

#[test]
fn blend_saturates_instead_of_overflowing() {
    // doubling past the maximum parks at the maximum
    assert_eq!(fx_blend(0, i64::MAX, 2 * FX_ONE), i64::MAX);
    // and symmetrically at the minimum
    assert_eq!(fx_blend(0, i64::MIN, 2 * FX_ONE), i64::MIN);
    // ordinary blends are exact
    assert_eq!(fx_blend(1_000_000, 3_000_000, HALF), 2_000_000);
    assert_eq!(fx_blend(3_000_000, 1_000_000, HALF), 2_000_000);
}

#[test]
fn ease_clamps_time_but_unbounded_does_not() {
    assert_eq!(ease(&Linear, 0i64, 10_000_000, 2 * FX_ONE), 10_000_000);
    assert_eq!(ease(&Linear, 0i64, 10_000_000, -FX_ONE), 0);
    assert_eq!(
        ease_with_unbounded_time(&Linear, 0i64, 10_000_000, 2 * FX_ONE),
        20_000_000
    );
}

#[test]
fn ease_with_scaled_time_scales_into_the_span() {
    assert_eq!(
        ease_with_scaled_time(&Linear, 0i64, 1_000_000, 1_000_000, 2_000_000),
        500_000
    );
    assert_eq!(
        ease_with_scaled_time(&Linear, 0i64, 1_000_000, -5, 2_000_000),
        0
    );
    assert_eq!(
        ease_with_scaled_time(&Linear, 0i64, 1_000_000, 9_000_000, 2_000_000),
        1_000_000
    );
}

#[test]
fn shorthand_functions_match_their_curves() {
    assert_eq!(linear(0i64, 1_000_000, 250_000), 250_000);
    assert_eq!(ease_in(0i64, FX_ONE, HALF), 125_000);
    assert_eq!(ease_out(0i64, FX_ONE, HALF), 875_000);
    assert_eq!(ease_in_out(0i64, FX_ONE, HALF), HALF);
}

#[test]
fn vectors_blend_componentwise() {
    let from = Vector2 { x: 0i64, y: 0i64 };
    let to = Vector2 {
        x: 2_000_000i64,
        y: 4_000_000i64,
    };
    let mid = ease(&Linear, from, to, HALF);
    assert_eq!(mid.x, 1_000_000);
    assert_eq!(mid.y, 2_000_000);
}

#[test]
fn elementwise_blend_of_equal_length_sequences() {
    let from = vec![0i64, 1_000_000];
    let to = vec![1_000_000i64, 3_000_000];
    let mid = ease_elementwise(&from, &to, HALF);
    assert_eq!(mid, vec![500_000, 2_000_000]);
}

#[test]
fn bezier_endpoints_are_exact() {
    let curve = BezierCurve::from(
        Vector2 {
            x: 300_000i64,
            y: 0i64,
        },
        Vector2 {
            x: 700_000i64,
            y: FX_ONE,
        },
    );
    assert_eq!(curve.y(0), 0);
    assert_eq!(curve.y(FX_ONE), FX_ONE);
}

#[test]
fn bezier_control_points_clamp_into_unit_square() {
    let curve = BezierCurve::from(
        Vector2 {
            x: -5_000_000i64,
            y: 2_000_000i64,
        },
        Vector2 {
            x: 9_000_000i64,
            y: -1i64,
        },
    );
    assert_eq!(curve.p1.x, 0);
    assert_eq!(curve.p1.y, FX_ONE);
    assert_eq!(curve.p2.x, FX_ONE);
    assert_eq!(curve.p2.y, 0);
}

#[test]
fn symmetric_bezier_passes_near_center() {
    let curve = BezierCurve::from(Vector2 { x: 0i64, y: 0i64 }, Vector2 {
        x: FX_ONE,
        y: FX_ONE,
    });
    let mid = curve.y(HALF);
    assert!((mid - HALF).abs() < 2_000, "midpoint was {mid}");
}

#[test]
fn sampled_curve_interpolates_its_table() {
    let mut table = [0i64; 20];
    let mut i = 0usize;
    while i < 20 {
        table[i] = ((i as i64) * FX_ONE) / 19;
        i += 1;
    }
    let curve = Keyframes(table);
    assert_eq!(curve.y(0), 0);
    assert_eq!(curve.y(FX_ONE), table[19]);
    // x = 0.5 lies between samples 9 and 10
    assert_eq!(curve.y(HALF), 499_999);
    // beyond the last sample the boundary segment extrapolates linearly
    assert_eq!(curve.y(3 * FX_ONE), 3_000_016);
    // and below the first sample likewise
    assert_eq!(curve.y(-FX_ONE), -999_989);
}

#[test]
fn sequence_resamples_into_normalized_curve() {
    let sequence = AnimationSequence::from_keyframes(vec![
        Keyframe::new(0i64, 0, Curve::Linear),
        Keyframe::new(FX_ONE, FX_ONE, Curve::Linear),
    ]);
    let curve = sequence.to_easing_function();
    for i in 0..20usize {
        assert_eq!(curve.0[i], ((i as i64) * FX_ONE) / 19);
    }
}

#[test]
fn curve_enum_dispatches_to_its_formula() {
    assert_eq!(Curve::Linear.y(HALF), HALF);
    assert_eq!(Curve::InQuad.y(HALF), 250_000);
    assert_eq!(Curve::OutQuad.y(HALF), 750_000);
    assert_eq!(Curve::Hold.y(HALF), 0);
    assert_eq!(Curve::Step.y(HALF), FX_ONE);
    assert_eq!(Curve::InCubic.y(HALF), 125_000);
}
