//! The parts of a small path tracer that are free of floating point: the
//! plain-text PPM image that receives rendered pixels, the check that refuses
//! degenerate camera settings, the integer random draw, and the material
//! that absorbs every ray.

pub mod ppm;
pub mod camera;
pub mod material;
pub mod rng;

pub use material::DefaultMaterial;
pub use rng::random_range_u32;
