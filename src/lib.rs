//! A minimal ray-tracing renderer: the integer side of the pipeline.
//!
//! The image's pixel grid, the order in which pixels are emitted, the mapping
//! of a scaled colour channel onto a byte, and the plain-text pixel-map
//! (PPM) encoding of the rendered image.
pub mod color;
pub mod image;
pub mod ppm;
