//! The tools that the service offers.

pub mod image;

pub use image::ImageHandler;
