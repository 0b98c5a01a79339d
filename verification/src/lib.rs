//! Core logic of a batch image-bordering tool: computing the enlarged canvas
//! geometry for a requested border, compositing a source raster onto a white
//! canvas, choosing resize dimensions, dispatching to an output codec, and
//! the small coordination state machines (preview supersession, batch
//! progress) that a driver runs around it.

pub mod geometry;
pub mod raster;
pub mod resize;
pub mod codec;
pub mod pipeline;
pub mod coordinate;
pub mod scan;
