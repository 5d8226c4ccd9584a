//! Definitions for the easing function catalog: the static parameter-free
//! curves, the runtime-configurable cubic Bézier curve, and the curve derived
//! by resampling an animation sequence.

pub mod static_functions;

pub mod dynamic_functions;
