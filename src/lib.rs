//! Bodies, body parts, activation bookkeeping and joint constraints of a
//! velocity-based rigid-body dynamics engine.
//!
//! Scalars are fixed-point numbers: an `i64` counts millionths of a unit
//! (see [`math::UNIT`]).
pub mod math;
pub mod handle;
pub mod activation;
pub mod body;
pub mod body_set;
pub mod joint;
pub mod solver;
