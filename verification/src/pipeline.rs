//! The thumbnail pipeline: owns the loaded video bytes, orchestrates
//! locate, convert and encode for single and batch extraction, and reports
//! container metadata without decoding.
//!
//! The demuxer/decoder is a capability the host drives; what one
//! open-and-decode pass (or one header probe) reported enters here as plain
//! data, and the pipeline's decisions about it are verified for every value
//! the capability could hand back.

use vstd::prelude::*;
use vstd::slice::slice_to_vec;
use crate::convert::bilinear_rgb8_of;
use crate::convert::convert_frame;
use crate::encode::encode_as_jpeg;
use crate::encode::jpeg_encoding_of;
use crate::errors::ThumbError;
use crate::locator::DecodedFrame;
use crate::locator::is_located;
use crate::locator::lemma_first_reaching;
use crate::locator::locate_frame;
use crate::locator::locate_spec;
use crate::locator::none_reaches;
use crate::locator::stamps_of;
use crate::raster::MAX_DIMENSION;
use crate::raster::Raster;
use crate::timebase::TimeBase;
use crate::timebase::lemma_target_pts_monotonic;
use crate::timebase::target_pts;
use crate::timebase::target_pts_spec;

verus! {

/// What the container reported of its selected video stream's headers.
pub struct StreamInfo {
    /// The stream's index among the container's streams.
    pub index: usize,
    /// The stream's timebase: seconds per presentation tick.
    pub time_base: TimeBase,
    /// Coded width in pixels.
    pub width: u32,
    /// Coded height in pixels.
    pub height: u32,
    /// Frame-rate numerator; advisory, may be degenerate.
    pub rate_num: u32,
    /// Frame-rate denominator; advisory, may be zero.
    pub rate_den: u32,
}

impl StreamInfo {
    pub open spec fn wf(self) -> bool {
        self.time_base.wf()
    }
}

/// What one header-only probe of the container reported: stream selection
/// and duration, with no packet ever decoded.
pub struct ContainerProbe {
    /// Whether the bytes opened as a recognized container.
    pub opened: bool,
    /// The best video stream, or none when the container has no video track.
    pub stream: Option<StreamInfo>,
    /// Container-reported total duration, in microseconds.
    pub duration_micros: i64,
}

impl ContainerProbe {
    pub open spec fn wf(self) -> bool {
        self.stream is Some ==> self.stream->0.wf()
    }

    /// Runtime check of well-formedness, for unverified callers that must
    /// establish it before handing a probe over.
    pub fn check(&self) -> (r: bool)
        ensures
            r == self.wf(),
    {
        match &self.stream {
            Some(s) => s.time_base.num > 0 && s.time_base.den > 0,
            None => true,
        }
    }
}

/// What one full open-and-decode pass over the loaded bytes reported:
/// how far the container stages got, and every frame the decoder emitted
/// for the selected stream, in decode order.
pub struct DecodeRun {
    /// Whether the bytes opened as a recognized container.
    pub opened: bool,
    /// The best video stream, or none when the container has no video track.
    pub stream: Option<StreamInfo>,
    /// Whether a decoder could be built from the stream's codec parameters.
    pub decoder_ok: bool,
    /// The decoded frames of the selected stream, in decode order.
    pub frames: Vec<DecodedFrame>,
}

impl DecodeRun {
    pub open spec fn wf(self) -> bool {
        &&& (self.stream is Some ==> self.stream->0.wf())
        &&& forall|i: int| 0 <= i < self.frames@.len() ==> (#[trigger] self.frames@[i]).wf()
    }

    /// Runtime check of well-formedness, for unverified callers that must
    /// establish it before handing a decode pass over.
    pub fn check(&self) -> (r: bool)
        ensures
            r == self.wf(),
    {
        let stream_ok = match &self.stream {
            Some(s) => s.time_base.num > 0 && s.time_base.den > 0,
            None => true,
        };
        if !stream_ok {
            return false;
        }
        let n = self.frames.len();
        for i in 0..n
            invariant
                n == self.frames@.len(),
                forall|j: int| 0 <= j < i ==> (#[trigger] self.frames@[j]).wf(),
        {
            let f = &self.frames[i];
            if f.image.width == 0 || f.image.width > MAX_DIMENSION || f.image.height == 0
                || f.image.height > MAX_DIMENSION {
                return false;
            }
            proof {
                assert((f.image.width as int) * (f.image.height as int) * 3 <= 65535 * 65535 * 3)
                    by (nonlinear_arith)
                    requires
                        f.image.width <= 65535u32,
                        f.image.height <= 65535u32,
                ;
            }
            let expected: u64 = (f.image.width as u64) * (f.image.height as u64) * 3;
            if (f.image.data.len() as u64) != expected {
                return false;
            }
        }
        true
    }
}

/// Container metadata, derived fresh per query from headers alone.
#[derive(Debug)]
pub struct VideoInfo {
    /// Total duration in microseconds, as the container reports it.
    pub duration_micros: i64,
    /// Coded width of the selected video stream, in pixels.
    pub width: u32,
    /// Coded height of the selected video stream, in pixels.
    pub height: u32,
    /// Frame-rate numerator; advisory, may be degenerate.
    pub fps_num: u32,
    /// Frame-rate denominator; advisory, may be zero.
    pub fps_den: u32,
}

impl VideoInfo {
    pub fn new(duration_micros: i64, width: u32, height: u32, fps_num: u32, fps_den: u32) -> (r:
        VideoInfo)
        ensures
            r == (VideoInfo { duration_micros, width, height, fps_num, fps_den }),
    {
        VideoInfo { duration_micros, width, height, fps_num, fps_den }
    }

    /// Total duration in microseconds.
    pub fn duration(&self) -> (r: i64)
        ensures
            r == self.duration_micros,
    {
        self.duration_micros
    }

    pub fn width(&self) -> (r: u32)
        ensures
            r == self.width,
    {
        self.width
    }

    pub fn height(&self) -> (r: u32)
        ensures
            r == self.height,
    {
        self.height
    }

    /// The frame rate as the raw rational the container supplied. The
    /// denominator may be zero; callers must treat the rate as advisory.
    pub fn fps(&self) -> (r: (u32, u32))
        ensures
            r.0 == self.fps_num,
            r.1 == self.fps_den,
    {
        (self.fps_num, self.fps_den)
    }
}

/// The raster bytes that locating and converting yield from one decode
/// pass, for every value the capability could report: the container stage
/// checks in order, then the linear scan, then the rescale.
pub open spec fn frame_outcome(
    time_micros: u64,
    width: u32,
    height: u32,
    run: DecodeRun,
) -> Result<Seq<u8>, ThumbError> {
    if !run.opened {
        Err(ThumbError::ContainerOpenFailed)
    } else if run.stream is None {
        Err(ThumbError::NoVideoStream)
    } else if !run.decoder_ok {
        Err(ThumbError::DecoderInitFailed)
    } else {
        let tb = run.stream->0.time_base;
        let target = target_pts_spec(time_micros, tb.num, tb.den);
        match locate_spec(stamps_of(run.frames@), target) {
            None => Err(ThumbError::FrameNotFound),
            Some(i) => {
                if 1 <= width <= MAX_DIMENSION && 1 <= height <= MAX_DIMENSION {
                    Ok(
                        bilinear_rgb8_of(
                            run.frames@[i].image.data@,
                            run.frames@[i].image.width,
                            run.frames@[i].image.height,
                            width,
                            height,
                        ),
                    )
                } else {
                    Err(ThumbError::ScaleFailed)
                }
            },
        }
    }
}

/// What a single extraction returns: the buffer check, then the located
/// and converted raster, encoded.
pub open spec fn thumbnail_outcome(
    loaded: bool,
    time_micros: u64,
    width: u32,
    height: u32,
    run: DecodeRun,
) -> Result<Seq<u8>, ThumbError> {
    if !loaded {
        Err(ThumbError::NoVideoLoaded)
    } else {
        match frame_outcome(time_micros, width, height, run) {
            Err(e) => Err(e),
            Ok(raster) => Ok(jpeg_encoding_of(width, height, raster)),
        }
    }
}

/// Locate the first frame of the decode pass whose presentation stamp
/// reaches the requested offset and rescale it to the requested
/// dimensions: an RGB8 raster of exactly `width * height * 3` bytes.
pub fn extract_frame_at_time(
    time_micros: u64,
    width: u32,
    height: u32,
    run: &DecodeRun,
) -> (r: Result<Raster, ThumbError>)
    requires
        run.wf(),
    ensures
        ({
            let o = frame_outcome(time_micros, width, height, *run);
            match r {
                Ok(raster) => o == Ok::<Seq<u8>, ThumbError>(raster.data@) && raster.wf()
                    && raster.width == width && raster.height == height,
                Err(e) => o == Err::<Seq<u8>, ThumbError>(e),
            }
        }),
{
    if !run.opened {
        return Err(ThumbError::ContainerOpenFailed);
    }
    let stream = match &run.stream {
        Some(s) => s,
        None => { return Err(ThumbError::NoVideoStream) },
    };
    if !run.decoder_ok {
        return Err(ThumbError::DecoderInitFailed);
    }
    let target = match target_pts(time_micros, &stream.time_base) {
        Some(t) => t,
        None => {
            proof {
                let s = stamps_of(run.frames@);
                let tgt = target_pts_spec(time_micros, stream.time_base.num,
                    stream.time_base.den);
                assert forall|j: int| 0 <= j < s.len() implies (#[trigger] s[j]).effective_pts()
                    < tgt by {
                    assert(s[j].effective_pts() <= i64::MAX);
                }
                if exists|k: int| is_located(s, tgt, k) {
                    let k = choose|k: int| is_located(s, tgt, k);
                    assert(s[k].effective_pts() < tgt);
                }
            }
            return Err(ThumbError::FrameNotFound);
        },
    };
    match locate_frame(&run.frames, target) {
        None => Err(ThumbError::FrameNotFound),
        Some(i) => {
            let frame = &run.frames[i];
            convert_frame(frame, width, height)
        },
    }
}

/// Generates thumbnails from video bytes it owns exclusively. Loading
/// replaces the buffer whole; every extraction opens and scans afresh.
pub struct VideoThumbnailGenerator {
    /// The loaded video bytes; empty until the first load.
    pub video_data: Vec<u8>,
}

impl VideoThumbnailGenerator {
    /// Whether any video bytes are loaded; every other operation fails
    /// with `NoVideoLoaded` while this is false.
    pub open spec fn loaded(self) -> bool {
        self.video_data@.len() > 0
    }

    /// A fresh generator holds no video bytes.
    pub fn new() -> (r: VideoThumbnailGenerator)
        ensures
            r.video_data@ == Seq::<u8>::empty(),
            !r.loaded(),
    {
        VideoThumbnailGenerator { video_data: Vec::new() }
    }

    /// Replace the owned buffer with the given bytes, unconditionally and
    /// wholly: nothing of a prior load survives. No format validation
    /// happens here; validation is deferred to first use.
    pub fn load_video(&mut self, video_buffer: &[u8]) -> (r: Result<(), ThumbError>)
        ensures
            r is Ok,
            final(self).video_data@ == video_buffer@,
    {
        self.video_data = slice_to_vec(video_buffer);
        Ok(())
    }

    /// Extract one thumbnail: locate the first frame at or past the
    /// requested offset in the decode pass, rescale it, encode it as JPEG.
    /// The result is exactly `thumbnail_outcome` of the inputs; a produced
    /// byte stream is never empty and opens with the JPEG start-of-image
    /// marker.
    pub fn generate_thumbnail(
        &self,
        time_micros: u64,
        width: u32,
        height: u32,
        run: &DecodeRun,
    ) -> (r: Result<Vec<u8>, ThumbError>)
        requires
            run.wf(),
        ensures
            ({
                let o = thumbnail_outcome(self.loaded(), time_micros, width, height, *run);
                match r {
                    Ok(v) => o == Ok::<Seq<u8>, ThumbError>(v@),
                    Err(e) => o == Err::<Seq<u8>, ThumbError>(e),
                }
            }),
            r is Ok ==> r->Ok_0@.len() >= 2 && r->Ok_0@[0] == 0xffu8 && r->Ok_0@[1] == 0xd8u8,
    {
        if self.video_data.len() == 0 {
            return Err(ThumbError::NoVideoLoaded);
        }
        let raster = match extract_frame_at_time(time_micros, width, height, run) {
            Ok(x) => x,
            Err(e) => { return Err(e) },
        };
        match encode_as_jpeg(&raster) {
            Ok(bytes) => Ok(bytes),
            Err(e) => Err(e),
        }
    }

    /// Extract one thumbnail per requested time, strictly in input order,
    /// each from its own fresh decode pass. The first failure aborts the
    /// whole batch; on success the results correspond one to one to the
    /// inputs, each exactly what a lone `generate_thumbnail` call returns.
    pub fn generate_multiple_thumbnails(
        &self,
        times: &Vec<u64>,
        width: u32,
        height: u32,
        runs: &Vec<DecodeRun>,
    ) -> (r: Result<Vec<Vec<u8>>, ThumbError>)
        requires
            runs@.len() == times@.len(),
            forall|i: int| 0 <= i < runs@.len() ==> (#[trigger] runs@[i]).wf(),
        ensures
            !self.loaded() ==> r == Err::<Vec<Vec<u8>>, ThumbError>(ThumbError::NoVideoLoaded),
            r is Ok ==> self.loaded() && r->Ok_0@.len() == times@.len() && forall|i: int|
                0 <= i < times@.len() ==> thumbnail_outcome(
                    true,
                    times@[i],
                    width,
                    height,
                    runs@[i],
                ) == Ok::<Seq<u8>, ThumbError>((#[trigger] r->Ok_0@[i])@),
            r is Ok ==> forall|i: int| 0 <= i < times@.len() ==> (#[trigger] r->Ok_0@[i])@.len()
                >= 2 && r->Ok_0@[i]@[0] == 0xffu8 && r->Ok_0@[i]@[1] == 0xd8u8,
            (r is Err && self.loaded()) ==> exists|k: int|
                0 <= k < times@.len() && thumbnail_outcome(true, times@[k], width, height, runs@[k])
                    == Err::<Seq<u8>, ThumbError>(r->Err_0) && forall|j: int|
                    0 <= j < k ==> (#[trigger] thumbnail_outcome(
                        true,
                        times@[j],
                        width,
                        height,
                        runs@[j],
                    )) is Ok,
    {
        if self.video_data.len() == 0 {
            return Err(ThumbError::NoVideoLoaded);
        }
        let mut thumbnails: Vec<Vec<u8>> = Vec::new();
        let n = times.len();
        for i in 0..n
            invariant
                n == times@.len(),
                runs@.len() == times@.len(),
                forall|t: int| 0 <= t < runs@.len() ==> (#[trigger] runs@[t]).wf(),
                self.loaded(),
                thumbnails@.len() == i,
                forall|j: int| 0 <= j < i ==> thumbnail_outcome(true, times@[j], width, height,
                    runs@[j]) == Ok::<Seq<u8>, ThumbError>((#[trigger] thumbnails@[j])@),
                forall|j: int| 0 <= j < i ==> (#[trigger] thumbnails@[j])@.len() >= 2
                    && thumbnails@[j]@[0] == 0xffu8 && thumbnails@[j]@[1] == 0xd8u8,
        {
            let encoded = match self.generate_thumbnail(times[i], width, height, &runs[i]) {
                Ok(bytes) => bytes,
                Err(e) => {
                    proof {
                        let k = i as int;
                        assert(thumbnail_outcome(true, times@[k], width, height, runs@[k])
                            == Err::<Seq<u8>, ThumbError>(e));
                        assert forall|j: int| 0 <= j < k implies (#[trigger] thumbnail_outcome(
                            true,
                            times@[j],
                            width,
                            height,
                            runs@[j],
                        )) is Ok by {
                            assert(thumbnail_outcome(true, times@[j], width, height, runs@[j])
                                == Ok::<Seq<u8>, ThumbError>(thumbnails@[j]@));
                        }
                    }
                    return Err(e);
                },
            };
            thumbnails.push(encoded);
        }
        Ok(thumbnails)
    }

    /// Report duration, native resolution and frame rate from container and
    /// stream headers alone: the probe this reads carries no decoded frame
    /// and no decoder state, so no packet-decode loop can be involved.
    pub fn get_video_info(&self, probe: &ContainerProbe) -> (r: Result<VideoInfo, ThumbError>)
        requires
            probe.wf(),
        ensures
            !self.loaded() ==> r == Err::<VideoInfo, ThumbError>(ThumbError::NoVideoLoaded),
            self.loaded() && !probe.opened ==> r == Err::<VideoInfo, ThumbError>(
                ThumbError::ContainerOpenFailed,
            ),
            self.loaded() && probe.opened && probe.stream is None ==> r == Err::<
                VideoInfo,
                ThumbError,
            >(ThumbError::NoVideoStream),
            self.loaded() && probe.opened && probe.stream is Some ==> r == Ok::<
                VideoInfo,
                ThumbError,
            >(
                VideoInfo {
                    duration_micros: probe.duration_micros,
                    width: probe.stream->0.width,
                    height: probe.stream->0.height,
                    fps_num: probe.stream->0.rate_num,
                    fps_den: probe.stream->0.rate_den,
                },
            ),
    {
        if self.video_data.len() == 0 {
            return Err(ThumbError::NoVideoLoaded);
        }
        if !probe.opened {
            return Err(ThumbError::ContainerOpenFailed);
        }
        match &probe.stream {
            None => Err(ThumbError::NoVideoStream),
            Some(s) => Ok(
                VideoInfo {
                    duration_micros: probe.duration_micros,
                    width: s.width,
                    height: s.height,
                    fps_num: s.rate_num,
                    fps_den: s.rate_den,
                },
            ),
        }
    }
}

/// The time-zero law: on a loaded video whose decode pass opened the
/// container, selected a stream, built a decoder, and yielded any frame
/// with a nonnegative effective stamp, a request at time zero with valid
/// dimensions succeeds.
pub proof fn lemma_time_zero_succeeds(run: DecodeRun, width: u32, height: u32)
    requires
        run.wf(),
        run.opened,
        run.stream is Some,
        run.decoder_ok,
        exists|j: int|
            0 <= j < run.frames@.len() && (#[trigger] run.frames@[j]).stamp.effective_pts() >= 0,
        1 <= width <= MAX_DIMENSION,
        1 <= height <= MAX_DIMENSION,
    ensures
        thumbnail_outcome(true, 0, width, height, run) is Ok,
{
    let tb = run.stream->0.time_base;
    crate::timebase::lemma_target_pts_zero(tb.num, tb.den);
    assert(target_pts_spec(0, tb.num, tb.den) == 0);
    let s = stamps_of(run.frames@);
    let j = choose|j: int|
        0 <= j < run.frames@.len() && (#[trigger] run.frames@[j]).stamp.effective_pts() >= 0;
    assert(s[j].effective_pts() >= 0);
    let i = lemma_first_reaching(s, 0);
    assert(locate_spec(s, 0) is Some);
}

/// The monotonic-scan law: of two requested offsets within the decoded
/// content, the later one locates a frame no earlier in decode order and
/// with a presentation stamp at least as large.
pub proof fn lemma_scan_monotonic(run: DecodeRun, t1: u64, t2: u64)
    requires
        run.stream is Some,
        run.stream->0.wf(),
        t1 <= t2,
        locate_spec(
            stamps_of(run.frames@),
            target_pts_spec(t1, run.stream->0.time_base.num, run.stream->0.time_base.den),
        ) is Some,
        locate_spec(
            stamps_of(run.frames@),
            target_pts_spec(t2, run.stream->0.time_base.num, run.stream->0.time_base.den),
        ) is Some,
    ensures
        ({
            let s = stamps_of(run.frames@);
            let tb = run.stream->0.time_base;
            let i1 = locate_spec(s, target_pts_spec(t1, tb.num, tb.den))->0;
            let i2 = locate_spec(s, target_pts_spec(t2, tb.num, tb.den))->0;
            i1 <= i2 && s[i1].effective_pts() <= s[i2].effective_pts()
        }),
{
    let s = stamps_of(run.frames@);
    let tb = run.stream->0.time_base;
    let tgt1 = target_pts_spec(t1, tb.num, tb.den);
    let tgt2 = target_pts_spec(t2, tb.num, tb.den);
    lemma_target_pts_monotonic(t1, t2, tb.num, tb.den);
    let i1 = locate_spec(s, tgt1)->0;
    let i2 = locate_spec(s, tgt2)->0;
    assert(is_located(s, tgt1, i1));
    assert(is_located(s, tgt2, i2));
    crate::locator::lemma_locate_monotonic(s, tgt1, tgt2, i1, i2);
}

/// The past-the-end law: where no decoded frame's stamp reaches the target
/// of the requested offset, extraction on a loaded video fails with
/// `FrameNotFound` and nothing else — never a silently truncated frame.
pub proof fn lemma_past_end_fails(run: DecodeRun, time_micros: u64, width: u32, height: u32)
    requires
        run.opened,
        run.stream is Some,
        run.decoder_ok,
        none_reaches(
            stamps_of(run.frames@),
            target_pts_spec(time_micros, run.stream->0.time_base.num,
                run.stream->0.time_base.den),
        ),
    ensures
        thumbnail_outcome(true, time_micros, width, height, run) == Err::<Seq<u8>, ThumbError>(
            ThumbError::FrameNotFound,
        ),
{
    let s = stamps_of(run.frames@);
    let tb = run.stream->0.time_base;
    let tgt = target_pts_spec(time_micros, tb.num, tb.den);
    if exists|k: int| is_located(s, tgt, k) {
        let k = choose|k: int| is_located(s, tgt, k);
        assert(s[k].effective_pts() < tgt);
    }
}

} // verus!
