//! Screen capture pipeline: take a raw RGBA frame of the first display, cut a
//! region out of it, and hand it back as base64 text of a PNG image.

pub mod error;
pub mod raster;
pub mod region;
pub mod codec;
pub mod pipeline;
pub mod laws;
