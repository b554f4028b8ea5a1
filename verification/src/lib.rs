//! A path-tracing renderer over fixed-point arithmetic.
//!
//! Every scalar is a signed 64.16 fixed-point number stored in an `i128`:
//! the integer `v` stands for the real number `v / 65536`. All geometry,
//! texturing, material scattering and camera sampling is carried out in
//! this representation, so each function's contract can state its result
//! exactly over the integers.

pub mod camera;
pub mod color;
pub mod fixed;
pub mod hittable;
pub mod material;
pub mod moving_sphere;
pub mod perlin;
pub mod ray;
pub mod rng;
pub mod scenes;
pub mod sphere;
pub mod texture;
pub mod trig;
pub mod vec3;

pub use fixed::Fx;
