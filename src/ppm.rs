//! Plain-text (`P3`) PPM images.

pub mod color;
pub mod image;
pub mod text;

pub use color::PpmColor;
pub use image::Ppm;
