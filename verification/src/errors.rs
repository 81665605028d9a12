//! The error surface of the thumbnail pipeline: one tagged kind per failing
//! stage, never recovered internally. Message rendering belongs to the caller.

use vstd::prelude::*;

verus! {

/// Every way an extraction, batch, or metadata call can fail.
#[derive(Clone, Copy, Debug, PartialEq, Eq, Structural)]
pub enum ThumbError {
    /// A generation or info call was made before any video bytes were loaded.
    NoVideoLoaded,
    /// The input bytes are malformed or not a recognized container.
    ContainerOpenFailed,
    /// The container holds no video track.
    NoVideoStream,
    /// The codec is unsupported or its parameters are malformed.
    DecoderInitFailed,
    /// The requested time lies at or beyond the end of decodable content.
    FrameNotFound,
    /// The scaling context could not be built or run (degenerate target size).
    ScaleFailed,
    /// The produced buffer does not fit the exact raster shape.
    RasterConstructionFailed,
    /// Output serialization failed.
    EncodeFailed,
}

} // verus!
