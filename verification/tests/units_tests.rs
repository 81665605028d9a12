use base64::Engine;
use video_thumbnailer::dataurl::jpeg_data_url;
use video_thumbnailer::encode::encode_as_jpeg;
use video_thumbnailer::errors::ThumbError;
use video_thumbnailer::pipeline::VideoInfo;
use video_thumbnailer::raster::Raster;
use video_thumbnailer::timebase::{target_pts, TimeBase};

#[test]
fn timebase_rejects_degenerate_rationals() {
    assert!(TimeBase::new(0, 30).is_none());
    assert!(TimeBase::new(1, 0).is_none());
    let tb = TimeBase::new(1, 30).unwrap();
    assert_eq!(tb.num, 1);
    assert_eq!(tb.den, 30);
}

#[test]
fn target_pts_converts_seconds_to_ticks() {
    let tb = TimeBase { num: 1, den: 30 };
    assert_eq!(target_pts(5_000_000, &tb), Some(150));
    assert_eq!(target_pts(0, &tb), Some(0));
    let ms = TimeBase { num: 1, den: 1000 };
    assert_eq!(target_pts(5_000_000, &ms), Some(5000));
    // 1/3-second ticks: 10 s is exactly 30 ticks, 9.9 s rounds down to 29.
    let third = TimeBase { num: 1, den: 3 };
    assert_eq!(target_pts(10_000_000, &third), Some(30));
    assert_eq!(target_pts(9_900_000, &third), Some(29));
}

#[test]
fn target_pts_overflow_is_reported() {
    let tb = TimeBase { num: 1, den: 1_000_000_000 };
    assert_eq!(target_pts(u64::MAX, &tb), None);
}

#[test]
fn raster_from_raw_demands_exact_shape() {
    let r = Raster::from_raw(2, 2, vec![0u8; 12]).unwrap();
    assert_eq!(r.width, 2);
    assert_eq!(r.height, 2);
    assert_eq!(
        Raster::from_raw(2, 2, vec![0u8; 11]).unwrap_err(),
        ThumbError::RasterConstructionFailed
    );
    assert_eq!(
        Raster::from_raw(2, 2, vec![0u8; 13]).unwrap_err(),
        ThumbError::RasterConstructionFailed
    );
    assert_eq!(
        Raster::from_raw(0, 2, Vec::new()).unwrap_err(),
        ThumbError::RasterConstructionFailed
    );
    assert_eq!(
        Raster::from_raw(65536, 1, vec![0u8; 65536 * 3]).unwrap_err(),
        ThumbError::RasterConstructionFailed
    );
}

#[test]
fn encode_produces_a_decodable_jpeg() {
    let raster = Raster { width: 2, height: 2, data: vec![200u8; 12] };
    let bytes = encode_as_jpeg(&raster).unwrap();
    assert!(bytes.len() >= 2);
    assert_eq!(&bytes[0..2], &[0xff, 0xd8]);
    let img = image::load_from_memory(&bytes).unwrap();
    assert_eq!(img.width(), 2);
    assert_eq!(img.height(), 2);
}

#[test]
fn encode_rejects_malformed_rasters() {
    let bad = Raster { width: 2, height: 2, data: vec![0u8; 5] };
    assert_eq!(encode_as_jpeg(&bad).unwrap_err(), ThumbError::EncodeFailed);
    let zero = Raster { width: 0, height: 2, data: Vec::new() };
    assert_eq!(encode_as_jpeg(&zero).unwrap_err(), ThumbError::EncodeFailed);
}

#[test]
fn data_url_prefixes_standard_base64() {
    let payload = vec![97u8, 98, 99];
    let url = jpeg_data_url(&payload);
    let expected_prefix = b"data:image/jpeg;base64,";
    assert_eq!(&url[0..expected_prefix.len()], expected_prefix);
    assert_eq!(&url[expected_prefix.len()..], b"YWJj");
    let decoded = base64::engine::general_purpose::STANDARD
        .decode(&url[expected_prefix.len()..])
        .unwrap();
    assert_eq!(decoded, payload);
}

#[test]
fn data_url_of_empty_payload_is_just_the_prefix() {
    let url = jpeg_data_url(&Vec::new());
    assert_eq!(url, b"data:image/jpeg;base64,".to_vec());
}

#[test]
fn video_info_reports_its_fields() {
    let info = VideoInfo::new(10_000_000, 640, 480, 30, 1);
    assert_eq!(info.duration(), 10_000_000);
    assert_eq!(info.width(), 640);
    assert_eq!(info.height(), 480);
    assert_eq!(info.fps(), (30, 1));
}
