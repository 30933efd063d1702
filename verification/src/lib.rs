//! Resize-and-recompress pipeline for a single in-memory raster image.
//!
//! The library resizes an RGB raster by a configurable ratio and re-encodes
//! it as a JPEG at a configurable quality, returning the encoded bytes.
//! Quality is measured in whole JPEG quality points and the resize ratio in
//! thousandths, so that all parameter handling is exact integer arithmetic.

pub mod compressor;
pub mod factor;
pub mod jpeg;
pub mod raster;
pub mod resize;

pub use compressor::Compressor;
pub use compressor::EncodeError;
pub use factor::ConfigurationError;
pub use factor::Factor;
pub use raster::Raster;
