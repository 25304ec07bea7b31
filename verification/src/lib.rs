//! Image conversion core: format detection, decoding into packed RGBA
//! rasters, orientation normalisation, preview sizing, encoding, size
//! estimation and the bookkeeping of batch conversions.

use vstd::prelude::*;

pub mod text;
pub mod error;
pub mod format;
pub mod estimate;
pub mod raster;
pub mod orient;
pub mod codec;
pub mod preview;
pub mod batch;
pub mod request;

verus! {

/// Entry point that groups the single-image operations.
pub struct ImageProcessor;

} // verus!
