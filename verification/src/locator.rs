//! The frame locator: a strict linear forward scan over decoded frames,
//! returning the first whose presentation stamp reaches the target.
//!
//! No seek table or keyframe index is consulted; the scan is correct but
//! costs decode work proportional to the requested time. `FrameScan` is the
//! incremental form the host drives packet by packet; `locate_frame` is the
//! same scan over frames already in hand.

use vstd::prelude::*;
use crate::raster::Raster;

verus! {

/// The presentation stamp of one decoded frame, in stream timebase ticks.
/// A frame the decoder emits without a stamp counts as tick zero.
#[derive(Clone, Copy, Debug, PartialEq, Eq, Structural)]
pub struct FrameStamp {
    pub pts: i64,
    pub has_pts: bool,
}

impl FrameStamp {
    /// The tick the scan compares against the target: the stamp itself,
    /// or zero where the decoder supplied none.
    pub open spec fn effective_pts(self) -> int {
        if self.has_pts {
            self.pts as int
        } else {
            0
        }
    }

    /// The effective presentation tick as a runtime value.
    pub fn effective(&self) -> (r: i64)
        ensures
            r == self.effective_pts(),
    {
        if self.has_pts {
            self.pts
        } else {
            0
        }
    }
}

/// One decoded video frame as the decode capability hands it over:
/// its presentation stamp and its native RGB raster.
pub struct DecodedFrame {
    pub stamp: FrameStamp,
    pub image: Raster,
}

impl DecodedFrame {
    pub open spec fn wf(self) -> bool {
        self.image.wf()
    }
}

/// The stamps of a frame sequence, in decode order.
pub open spec fn stamps_of(frames: Seq<DecodedFrame>) -> Seq<FrameStamp> {
    frames.map_values(|f: DecodedFrame| f.stamp)
}

/// Index `i` holds the first stamp reaching the target.
pub open spec fn is_located(stamps: Seq<FrameStamp>, target: int, i: int) -> bool {
    &&& 0 <= i < stamps.len()
    &&& stamps[i].effective_pts() >= target
    &&& forall|j: int| 0 <= j < i ==> stamps[j].effective_pts() < target
}

/// No stamp in the sequence reaches the target.
pub open spec fn none_reaches(stamps: Seq<FrameStamp>, target: int) -> bool {
    forall|j: int| 0 <= j < stamps.len() ==> stamps[j].effective_pts() < target
}

/// The scan's result on a whole stamp sequence: the first index reaching
/// the target, if any stamp does.
pub open spec fn locate_spec(stamps: Seq<FrameStamp>, target: int) -> Option<int> {
    if exists|i: int| is_located(stamps, target, i) {
        Some(choose|i: int| is_located(stamps, target, i))
    } else {
        None
    }
}

/// Among the indices whose stamp reaches the target there is a first one.
pub proof fn lemma_first_reaching(stamps: Seq<FrameStamp>, target: int) -> (i: int)
    requires
        exists|j: int| 0 <= j < stamps.len() && (#[trigger] stamps[j]).effective_pts() >= target,
    ensures
        is_located(stamps, target, i),
    decreases stamps.len(),
{
    if stamps[0].effective_pts() >= target {
        0
    } else {
        let sub = stamps.drop_first();
        let j = choose|j: int|
            0 <= j < stamps.len() && (#[trigger] stamps[j]).effective_pts() >= target;
        assert(0 <= j - 1 < sub.len() && sub[j - 1].effective_pts() >= target);
        let i0 = lemma_first_reaching(sub, target);
        assert forall|t: int| 0 <= t < i0 + 1 implies (#[trigger] stamps[t]).effective_pts()
            < target by {
            if t >= 1 {
                assert(stamps[t] == sub[t - 1]);
            }
        }
        i0 + 1
    }
}

/// At most one index is the first to reach the target.
pub proof fn lemma_located_unique(stamps: Seq<FrameStamp>, target: int, i1: int, i2: int)
    requires
        is_located(stamps, target, i1),
        is_located(stamps, target, i2),
    ensures
        i1 == i2,
{
}

/// The scan over frames already decoded: the first frame whose effective
/// stamp reaches the target, or `None` when the sequence is exhausted first.
pub fn locate_frame(frames: &Vec<DecodedFrame>, target: i64) -> (r: Option<usize>)
    ensures
        match r {
            Some(i) => is_located(stamps_of(frames@), target as int, i as int)
                && locate_spec(stamps_of(frames@), target as int) == Some(i as int),
            None => none_reaches(stamps_of(frames@), target as int)
                && locate_spec(stamps_of(frames@), target as int) is None,
        },
{
    let n = frames.len();
    for i in 0..n
        invariant
            n == frames@.len(),
            forall|j: int| 0 <= j < i ==> stamps_of(frames@)[j].effective_pts() < target,
    {
        if frames[i].stamp.effective() >= target {
            proof {
                let s = stamps_of(frames@);
                assert(is_located(s, target as int, i as int));
                lemma_located_unique(s, target as int, i as int,
                    choose|k: int| is_located(s, target as int, k));
            }
            return Some(i);
        }
    }
    proof {
        let s = stamps_of(frames@);
        if exists|k: int| is_located(s, target as int, k) {
            let k = choose|k: int| is_located(s, target as int, k);
            assert(s[k].effective_pts() < target);
        }
    }
    None
}

/// A later target never locates an earlier frame, and the frame it locates
/// carries a presentation stamp at least as large.
pub proof fn lemma_locate_monotonic(
    stamps: Seq<FrameStamp>,
    t1: int,
    t2: int,
    i1: int,
    i2: int,
)
    requires
        t1 <= t2,
        is_located(stamps, t1, i1),
        is_located(stamps, t2, i2),
    ensures
        i1 <= i2,
        stamps[i1].effective_pts() <= stamps[i2].effective_pts(),
{
    if i2 < i1 {
        assert(stamps[i2].effective_pts() < t1);
        assert(stamps[i2].effective_pts() >= t2);
    }
    if i1 < i2 {
        assert(stamps[i1].effective_pts() < t2);
    }
}

/// The incremental scan the host drives while demultiplexing and decoding:
/// it decides which packets feed the decoder and accepts the first emitted
/// frame whose stamp reaches the target, stopping the scan at once.
pub struct FrameScan {
    pub video_stream_index: usize,
    pub target_pts: i64,
    pub done: bool,
    pub offered: Ghost<Seq<FrameStamp>>,
}

impl FrameScan {
    /// The stamps of every frame offered so far, in decode order.
    pub open spec fn offered_stamps(self) -> Seq<FrameStamp> {
        self.offered@
    }

    pub open spec fn target(self) -> int {
        self.target_pts as int
    }

    pub open spec fn stream_index(self) -> int {
        self.video_stream_index as int
    }

    pub open spec fn is_done(self) -> bool {
        self.done
    }

    /// While the scan runs, no offered stamp has reached the target; once it
    /// is done, the last offered stamp is the first that did.
    pub open spec fn wf(self) -> bool {
        if self.done {
            self.offered@.len() > 0
                && is_located(self.offered@, self.target_pts as int, self.offered@.len() - 1)
        } else {
            none_reaches(self.offered@, self.target_pts as int)
        }
    }

    /// Begin a scan toward `target_pts` over packets of the given stream.
    pub fn new(video_stream_index: usize, target_pts: i64) -> (r: FrameScan)
        ensures
            r.wf(),
            !r.is_done(),
            r.offered_stamps() == Seq::<FrameStamp>::empty(),
            r.target() == target_pts as int,
            r.stream_index() == video_stream_index as int,
    {
        FrameScan {
            video_stream_index,
            target_pts,
            done: false,
            offered: Ghost(Seq::empty()),
        }
    }

    /// Whether a packet of the given stream should feed the decoder:
    /// only packets of the selected video stream, and none once the scan
    /// has found its frame.
    pub fn wants_packet(&self, stream_index: usize) -> (r: bool)
        ensures
            r == (stream_index as int == self.stream_index() && !self.is_done()),
    {
        !self.done && stream_index == self.video_stream_index
    }

    /// Offer the stamp of the next decoded frame. Returns true exactly when
    /// this frame is the first to reach the target; the scan is then done.
    pub fn offer(&mut self, pts: i64, has_pts: bool) -> (accepted: bool)
        requires
            old(self).wf(),
            !old(self).is_done(),
        ensures
            final(self).wf(),
            final(self).offered_stamps() == old(self).offered_stamps().push(
                FrameStamp { pts, has_pts },
            ),
            final(self).target() == old(self).target(),
            final(self).stream_index() == old(self).stream_index(),
            accepted == ((FrameStamp { pts, has_pts }).effective_pts() >= old(self).target()),
            final(self).is_done() == accepted,
    {
        let stamp = FrameStamp { pts, has_pts };
        proof {
            self.offered@ = self.offered@.push(stamp);
        }
        let accepted = stamp.effective() >= self.target_pts;
        if accepted {
            self.done = true;
        }
        accepted
    }

    /// Whether the scan has found its frame; a scan that ends without this
    /// having become true exhausted the stream below the target.
    pub fn found(&self) -> (r: bool)
        ensures
            r == self.is_done(),
    {
        self.done
    }
}

/// The incremental scan agrees with the whole-sequence scan: a finished
/// scan stopped exactly at the frame `locate_spec` picks among everything
/// offered, and an unfinished scan has offered nothing that scan would pick.
pub proof fn lemma_scan_agrees_with_locate(scan: FrameScan)
    requires
        scan.wf(),
    ensures
        scan.is_done() ==> locate_spec(scan.offered_stamps(), scan.target()) == Some(
            scan.offered_stamps().len() - 1,
        ),
        !scan.is_done() ==> locate_spec(scan.offered_stamps(), scan.target()) is None,
{
    let s = scan.offered_stamps();
    let t = scan.target();
    if scan.is_done() {
        lemma_located_unique(s, t, s.len() - 1, choose|i: int| is_located(s, t, i));
    } else {
        if exists|i: int| is_located(s, t, i) {
            let i = choose|i: int| is_located(s, t, i);
            assert(s[i].effective_pts() < t);
        }
    }
}

} // verus!
