//! Geometry and per-frame camera logic of a small walled physics sandbox.
//!
//! Lengths are whole millimetres and durations whole microseconds, so that
//! every rule here is exact integer arithmetic.
pub mod camera;
pub mod point;
pub mod room;
pub mod scene;
