//! Uncompressed RGB rasters: the fixed shape every decoded or converted
//! frame must fit before it can be encoded.

use vstd::prelude::*;
use crate::errors::ThumbError;

verus! {

/// The largest width or height a raster may have: the JPEG frame header
/// carries dimensions as unsigned 16-bit values.
pub const MAX_DIMENSION: u32 = 65535;

/// An RGB8 pixel buffer: three bytes per pixel, row-major.
#[derive(Debug)]
pub struct Raster {
    pub width: u32,
    pub height: u32,
    pub data: Vec<u8>,
}

impl Raster {
    /// A well-formed raster has positive, encodable dimensions and exactly
    /// `width * height * 3` bytes of pixel data.
    pub open spec fn wf(self) -> bool {
        1 <= self.width <= MAX_DIMENSION
            && 1 <= self.height <= MAX_DIMENSION
            && self.data@.len() == self.width as int * self.height as int * 3
    }

    /// Reinterpret a byte buffer as a raster of the given dimensions.
    /// Succeeds exactly when the dimensions are positive and encodable and
    /// the buffer has exactly `width * height * 3` bytes.
    pub fn from_raw(width: u32, height: u32, data: Vec<u8>) -> (r: Result<Raster, ThumbError>)
        ensures
            r is Ok <==> (1 <= width <= MAX_DIMENSION && 1 <= height <= MAX_DIMENSION
                && data@.len() == width as int * height as int * 3),
            r is Ok ==> r->Ok_0.width == width && r->Ok_0.height == height
                && r->Ok_0.data@ == data@ && r->Ok_0.wf(),
            r is Err ==> r->Err_0 == ThumbError::RasterConstructionFailed,
    {
        if width == 0 || width > MAX_DIMENSION || height == 0 || height > MAX_DIMENSION {
            return Err(ThumbError::RasterConstructionFailed);
        }
        proof {
            assert((width as int) * (height as int) * 3 <= 65535 * 65535 * 3)
                by (nonlinear_arith)
                requires
                    width <= 65535u32,
                    height <= 65535u32,
            ;
        }
        let expected: u64 = (width as u64) * (height as u64) * 3;
        if (data.len() as u64) == expected {
            Ok(Raster { width, height, data })
        } else {
            Err(ThumbError::RasterConstructionFailed)
        }
    }
}

} // verus!
