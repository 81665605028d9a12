use video_thumbnailer::locator::{locate_frame, DecodedFrame, FrameScan, FrameStamp};
use video_thumbnailer::raster::Raster;

fn solid_frame(pts: i64, has_pts: bool, w: u32, h: u32, rgb: [u8; 3]) -> DecodedFrame {
    let mut data = Vec::new();
    for _ in 0..(w * h) {
        data.push(rgb[0]);
        data.push(rgb[1]);
        data.push(rgb[2]);
    }
    DecodedFrame {
        stamp: FrameStamp { pts, has_pts },
        image: Raster { width: w, height: h, data },
    }
}

fn frames_with_pts(stamps: &[i64]) -> Vec<DecodedFrame> {
    stamps
        .iter()
        .map(|&p| solid_frame(p, true, 2, 2, [10, 20, 30]))
        .collect()
}

#[test]
fn locate_returns_first_frame_reaching_target() {
    let frames = frames_with_pts(&[0, 100, 200, 300]);
    assert_eq!(locate_frame(&frames, 150), Some(2));
    assert_eq!(locate_frame(&frames, 0), Some(0));
    assert_eq!(locate_frame(&frames, 300), Some(3));
}

#[test]
fn locate_fails_when_stream_exhausted_below_target() {
    let frames = frames_with_pts(&[0, 100, 200]);
    assert_eq!(locate_frame(&frames, 201), None);
    assert_eq!(locate_frame(&Vec::new(), 0), None);
}

#[test]
fn locate_is_monotonic_in_target() {
    let frames = frames_with_pts(&[0, 100, 200, 300]);
    let i1 = locate_frame(&frames, 50).unwrap();
    let i2 = locate_frame(&frames, 250).unwrap();
    assert!(i1 <= i2);
    assert!(frames[i1].stamp.pts <= frames[i2].stamp.pts);
}

#[test]
fn missing_pts_counts_as_zero() {
    let mut frames = frames_with_pts(&[]);
    frames.push(solid_frame(999, false, 2, 2, [1, 2, 3]));
    assert_eq!(locate_frame(&frames, 0), Some(0));
    assert_eq!(locate_frame(&frames, 1), None);
}

#[test]
fn scan_feeds_only_selected_stream_packets() {
    let scan = FrameScan::new(1, 100);
    assert!(scan.wants_packet(1));
    assert!(!scan.wants_packet(0));
    assert!(!scan.wants_packet(2));
}

#[test]
fn scan_accepts_first_frame_at_or_past_target_and_stops() {
    let mut scan = FrameScan::new(0, 100);
    assert!(!scan.found());
    assert!(!scan.offer(0, true));
    assert!(!scan.offer(99, true));
    assert!(scan.offer(100, true));
    assert!(scan.found());
    assert!(!scan.wants_packet(0));
}

#[test]
fn scan_treats_missing_pts_as_zero() {
    let mut scan = FrameScan::new(0, 0);
    assert!(scan.offer(-5, false));
    let mut scan2 = FrameScan::new(0, 1);
    assert!(!scan2.offer(7, false));
    assert!(!scan2.found());
}

#[test]
fn incremental_scan_stops_where_whole_scan_locates() {
    let stamps = [0i64, 50, 100, 150, 200];
    let frames = frames_with_pts(&stamps);
    let expected = locate_frame(&frames, 120);
    let mut scan = FrameScan::new(0, 120);
    let mut stopped = None;
    for (i, &pts) in stamps.iter().enumerate() {
        if !scan.wants_packet(0) {
            break;
        }
        if scan.offer(pts, true) {
            stopped = Some(i);
        }
    }
    assert_eq!(stopped, expected);
    assert_eq!(stopped, Some(3));
}

#[test]
fn stamp_effective_value() {
    assert_eq!(FrameStamp { pts: 42, has_pts: true }.effective(), 42);
    assert_eq!(FrameStamp { pts: 42, has_pts: false }.effective(), 0);
}
