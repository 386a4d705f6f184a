//! Color arithmetic and raster encoding for a small ray tracer.
//!
//! `color` holds the 8-bit RGB value type with its saturating blend
//! operations; `raster` checks a flat RGB pixel buffer against its image
//! dimensions and encodes it as a PNG stream.
use vstd::prelude::*;

pub mod color;
pub mod raster;

verus! {

} // verus!
