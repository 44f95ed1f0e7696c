//! Resolution-independent glyph outline packing for GPU rasterization.
//!
//! Glyph outlines are packed once into vertex/index/descriptor arrays that a
//! coverage-rasterization shader consumes with triangle primitives; bounds
//! transforms map font-unit rectangles to fractional and whole-pixel
//! rectangles at a given point size, using exact fraction arithmetic.

pub mod bounds;
pub mod coverage;
pub mod font;
pub mod outline;
