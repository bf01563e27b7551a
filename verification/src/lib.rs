//! Verified integer core of a Mandelbrot renderer.
//!
//! The escape-time iteration itself runs on double-precision floats and is
//! performed by the surrounding application; this crate holds the parts of
//! the pipeline that are exact integer logic — the cyclic 16-color palette,
//! the fixed color of bounded (interior) points, and the row-major assembly
//! of per-row pixel buffers into one image buffer — each with a proved
//! contract.

pub mod palette;
pub mod render;
