//! The frame converter: rescale a decoded frame's native RGB raster to the
//! requested output dimensions. Bilinear is the fixed resampling choice.

use vstd::prelude::*;
use crate::errors::ThumbError;
use crate::locator::DecodedFrame;
use crate::raster::Raster;
use crate::raster::MAX_DIMENSION;

verus! {

/// The bytes bilinear resampling produces from an RGB8 buffer of the given
/// source dimensions at the given destination dimensions. The resampling
/// depends on its arguments alone.
pub uninterp spec fn bilinear_rgb8_of(
    data: Seq<u8>,
    src_width: u32,
    src_height: u32,
    dst_width: u32,
    dst_height: u32,
) -> Seq<u8>;

/// Relies on image::imageops::resize with FilterType::Triangle (bilinear):
/// it returns a buffer of exactly the destination dimensions, and the pixels
/// are a function of the source buffer and the four dimensions alone.
#[verifier::external_body]
fn resize_bilinear_rgb8(
    data: &Vec<u8>,
    src_width: u32,
    src_height: u32,
    dst_width: u32,
    dst_height: u32,
) -> (r: Vec<u8>)
    requires
        1 <= src_width <= 65535,
        1 <= src_height <= 65535,
        1 <= dst_width <= 65535,
        1 <= dst_height <= 65535,
        data@.len() == src_width as int * src_height as int * 3,
    ensures
        r@ == bilinear_rgb8_of(data@, src_width, src_height, dst_width, dst_height),
        r@.len() == dst_width as int * dst_height as int * 3,
{
    let src: image::RgbImage =
        image::ImageBuffer::from_raw(src_width, src_height, data.clone()).unwrap();
    let out = image::imageops::resize(
        &src,
        dst_width,
        dst_height,
        image::imageops::FilterType::Triangle,
    );
    out.into_raw()
}

/// Rescale a decoded frame into an RGB8 raster of the requested dimensions.
/// Succeeds exactly when the requested dimensions are positive and within
/// the encodable range; a zero-sized or oversized target cannot be scaled.
pub fn convert_frame(frame: &DecodedFrame, width: u32, height: u32) -> (r: Result<
    Raster,
    ThumbError,
>)
    requires
        frame.wf(),
    ensures
        r is Ok <==> (1 <= width <= MAX_DIMENSION && 1 <= height <= MAX_DIMENSION),
        r is Ok ==> r->Ok_0.wf() && r->Ok_0.width == width && r->Ok_0.height == height
            && r->Ok_0.data@ == bilinear_rgb8_of(
            frame.image.data@,
            frame.image.width,
            frame.image.height,
            width,
            height,
        ),
        r is Err ==> r->Err_0 == ThumbError::ScaleFailed,
{
    if width == 0 || width > MAX_DIMENSION || height == 0 || height > MAX_DIMENSION {
        return Err(ThumbError::ScaleFailed);
    }
    let data = resize_bilinear_rgb8(
        &frame.image.data,
        frame.image.width,
        frame.image.height,
        width,
        height,
    );
    Ok(Raster { width, height, data })
}

} // verus!
