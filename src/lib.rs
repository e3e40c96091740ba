//! Per-frame physics of a single player entity in a small 2D platformer:
//! gravity, horizontal movement, jumping, floor contact and screen wrap.
//!
//! Lengths are held in fixed point (thousandths of a world unit) and
//! arithmetic saturates at the bounds of `i64`, where floating point would
//! run off to infinity.
pub mod entity;
pub mod fixed;
pub mod laws;
pub mod physics;
