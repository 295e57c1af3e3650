//! A CPU ray tracer with a verified core.
//!
//! All geometry runs on a fixed-point scalar type (`scalar::Scalar`), a
//! saturating 64-bit value with nine decimal places, so that every arithmetic
//! step has an exact mathematical meaning that the contracts can state.

pub mod camera;
pub mod canvas;
pub mod color;
pub mod intersection;
pub mod light;
pub mod material;
pub mod matrix;
pub mod ray;
pub mod sphere;
pub mod scalar;
pub mod transformations;
pub mod trig;
pub mod tuple;
pub mod world;
