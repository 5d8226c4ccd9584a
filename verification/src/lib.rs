//! A fixed-point animation library: easing curves, keyframes and playback
//! sequences, with machine-checked contracts.
//!
//! All times and scalar values are `i64` counts of millionths of a unit
//! (`fixed::FX_ONE` is `1.0`), so every boundary rule of the engine is exact.

mod easing;
mod fixed;
mod functions;
mod keyframe;
mod sequence;

pub use keyframe::Keyframe;

pub use sequence::AnimationSequence;
pub use sequence::AnimationSequenceError;
pub use sequence::active_index;
pub use sequence::bounce_spec;
pub use sequence::clamp_time_spec;
pub use sequence::cursor_ok;
pub use sequence::duration_of;
pub use sequence::has_time_in;
pub use sequence::insert_all;
pub use sequence::insert_all_lenient;
pub use sequence::lemma_active_index_agrees;
pub use sequence::lemma_now_strict_is_value_at;
pub use sequence::lemma_entries_strictly_sorted;
pub use sequence::lemma_playback_within_bounds;
pub use sequence::lemma_reverse_involution;
pub use sequence::lemma_wrap_steps;
pub use sequence::mask_filter;
pub use sequence::resampled_spec;
pub use sequence::reversed_entries;
pub use sequence::sample_high;
pub use sequence::sample_low;
pub use sequence::sorted_insert;
pub use sequence::times_nonneg;
pub use sequence::times_sorted;
pub use sequence::value_at;
pub use sequence::wrap_steps;
pub use sequence::wrap_time_spec;

pub use easing::CanTween;
pub use easing::EasingFunction;
pub use easing::Point2;
pub use easing::Point3;
pub use easing::Vector2;
pub use easing::Vector3;
pub use easing::Vector4;
pub use easing::ease;
pub use easing::ease_elementwise;
pub use easing::ease_spec;
pub use easing::ease_unbounded_spec;
pub use easing::ease_with_scaled_time;
pub use easing::ease_with_unbounded_time;
pub use easing::scaled_progress_spec;

pub use functions::static_functions::EaseIn;
pub use functions::static_functions::EaseInCubic;
pub use functions::static_functions::EaseInOut;
pub use functions::static_functions::EaseInOutCubic;
pub use functions::static_functions::EaseInOutQuad;
pub use functions::static_functions::EaseInOutQuart;
pub use functions::static_functions::EaseInOutQuint;
pub use functions::static_functions::EaseInQuad;
pub use functions::static_functions::EaseInQuart;
pub use functions::static_functions::EaseInQuint;
pub use functions::static_functions::EaseOut;
pub use functions::static_functions::EaseOutCubic;
pub use functions::static_functions::EaseOutQuad;
pub use functions::static_functions::EaseOutQuart;
pub use functions::static_functions::EaseOutQuint;
pub use functions::static_functions::Hold;
pub use functions::static_functions::Linear;
pub use functions::static_functions::Step;
pub use functions::static_functions::ease_in;
pub use functions::static_functions::ease_in_out;
pub use functions::static_functions::ease_out;
pub use functions::static_functions::linear;
pub use functions::dynamic_functions::BezierCurve;
pub use functions::dynamic_functions::Curve;
pub use functions::dynamic_functions::Keyframes;
pub use functions::dynamic_functions::SAMPLE_STEP;
pub use functions::dynamic_functions::SAMPLE_TABLE_SIZE;

pub use fixed::FX_ONE;
pub use fixed::FX_HALF;
pub use fixed::blend_spec;
pub use fixed::clamp_unit_spec;
pub use fixed::fx_abs;
pub use fixed::fx_blend;
pub use fixed::fx_div;
pub use fixed::fx_div_spec;
pub use fixed::fx_mul;
pub use fixed::fx_mul_spec;
pub use fixed::sat64;
pub use fixed::scale_unit;
pub use fixed::scale_unit_spec;
pub use fixed::trunc_div;
