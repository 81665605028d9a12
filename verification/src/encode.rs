//! The image encoder boundary: serialize an RGB raster as a JPEG byte
//! stream.

use vstd::prelude::*;
use crate::errors::ThumbError;
use crate::raster::Raster;

verus! {

/// The JPEG byte stream the encoder produces from an RGB8 raster of the
/// given dimensions. The encoding depends on its arguments alone.
pub uninterp spec fn jpeg_encoding_of(width: u32, height: u32, data: Seq<u8>) -> Seq<u8>;

/// Relies on image's JpegEncoder: for RGB8 input of exactly
/// `width * height * 3` bytes with dimensions in 1..=65535 it cannot fail
/// (the in-memory writer never errors), it begins the stream with the
/// two-byte start-of-image marker, and its output is a function of the
/// raster and its dimensions alone.
#[verifier::external_body]
fn jpeg_from_rgb8(width: u32, height: u32, data: &Vec<u8>) -> (r: Vec<u8>)
    requires
        1 <= width <= 65535,
        1 <= height <= 65535,
        data@.len() == width as int * height as int * 3,
    ensures
        r@ == jpeg_encoding_of(width, height, data@),
        r@.len() >= 2,
        r@[0] == 0xffu8,
        r@[1] == 0xd8u8,
{
    let mut out: Vec<u8> = Vec::new();
    let mut encoder = image::codecs::jpeg::JpegEncoder::new(&mut out);
    let _ = encoder.encode(data.as_slice(), width, height, image::ExtendedColorType::Rgb8);
    out
}

/// Serialize a raster as a JPEG byte stream. Succeeds exactly when the
/// raster is well formed; the output is never empty and begins with the
/// start-of-image marker.
pub fn encode_as_jpeg(image: &Raster) -> (r: Result<Vec<u8>, ThumbError>)
    ensures
        r is Ok <==> image.wf(),
        r is Ok ==> r->Ok_0@ == jpeg_encoding_of(image.width, image.height, image.data@)
            && r->Ok_0@.len() >= 2 && r->Ok_0@[0] == 0xffu8 && r->Ok_0@[1] == 0xd8u8,
        r is Err ==> r->Err_0 == ThumbError::EncodeFailed,
{
    if image.width == 0 || image.width > 65535 || image.height == 0 || image.height > 65535 {
        return Err(ThumbError::EncodeFailed);
    }
    proof {
        assert((image.width as int) * (image.height as int) * 3 <= 65535 * 65535 * 3)
            by (nonlinear_arith)
            requires
                image.width <= 65535u32,
                image.height <= 65535u32,
        ;
    }
    let expected: u64 = (image.width as u64) * (image.height as u64) * 3;
    if (image.data.len() as u64) != expected {
        return Err(ThumbError::EncodeFailed);
    }
    Ok(jpeg_from_rgb8(image.width, image.height, &image.data))
}

} // verus!
