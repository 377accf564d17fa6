//! Converts resolved vector-path nodes (geometry, fill/stroke style,
//! visibility, paint order) into concrete draw operations, and resolves
//! those operations into rasterizer commands.
//!
//! All coordinates are modelled as integers in user-space units; the
//! surrounding application converts them to the rasterizer's number format
//! at its edge.

pub mod geom;
pub mod style;
pub mod raster;
pub mod paint;
pub mod path;
pub mod render;
pub mod laws;
