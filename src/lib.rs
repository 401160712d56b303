//! Converts Swiss elevation and albedo TIFF rasters into PNG rasters.
//!
//! Elevation samples arrive as the bit patterns of 32-bit IEEE floats and are
//! quantized with exact integer arithmetic onto the full 16-bit range; color
//! samples lose their alpha channel. Decoding and encoding go through the
//! `tiff` and `image` crates.
pub mod codec;
pub mod color;
pub mod elevation;
pub mod layout;
pub mod pipeline;
pub mod raster;
