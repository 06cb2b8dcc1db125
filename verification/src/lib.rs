//! A path-tracing renderer over fixed-point arithmetic.
//!
//! Scene geometry, materials, the camera and the recursive integrator are
//! all verified: every executable function carries a contract that pins its
//! result down to the fixed-point computation it performs.

pub mod camera;
pub mod color;
pub mod fixed;
pub mod hittable;
pub mod interval;
pub mod material;
pub mod point3;
pub mod ppm;
pub mod progress;
pub mod ray;
pub mod sampler;
pub mod sphere;
pub mod text;
pub mod vec3;
