//! Raster-to-glyph transcoding: luminance and edge analysis over RGBA pixel
//! buffers, glyph selection from a fixed 16-entry palette, aspect-preserving
//! grid resampling, plain-text serialization, glyph rasterization through a
//! loaded font, and timed frame sequencing for playback.

pub mod pixel;
pub mod glyph;
pub mod edge;
pub mod grid;
pub mod transcode;
pub mod text;
pub mod sequence;
pub mod raster;
