//! Bitmap images held as decoded rasters together with the container format
//! they came in: decoding, encoding, metadata queries and a fixed menu of
//! transforms. Pixel work is done by the `image` crate; what each operation
//! returns is stated over a mathematical model of the raster. The decoder is
//! handed in by the caller, every other call into `image` is made here.

pub mod bitmap;
pub mod failure;
pub mod format;
pub mod raster;
pub mod resource;
