//! Converts a grayscale pixel grid into ASCII art.
//!
//! The pipeline has two stages: a scaler that resizes the grid to a
//! requested character width and/or height (delegating the resampling
//! itself to an image-processing crate), and a renderer that maps each
//! pixel's luminance onto a fixed ramp of characters ordered by visual
//! density, emitting each character twice per pixel.

pub mod grid;
pub mod ramp;
pub mod render;
pub mod scale;
