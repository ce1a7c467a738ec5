use image::{DynamicImage, RgbaImage};
use size_squeeze::{
    compress_jpeg, compress_png, compress_webp, compress_with, optimize_png_bytes,
    scaled_dimension, Codec, CompressError, Knobs, Raster,
};

fn solid(width: u32, height: u32) -> Raster {
    let mut rgba = Vec::new();
    for _ in 0..(width * height) {
        rgba.extend_from_slice(&[200, 40, 90, 255]);
    }
    Raster::new(width, height, rgba).unwrap()
}

fn noisy(width: u32, height: u32) -> Raster {
    let mut state: u32 = 0x1234_5678;
    let mut rgba = Vec::new();
    for _ in 0..(width * height) {
        for _ in 0..3 {
            state ^= state << 13;
            state ^= state >> 17;
            state ^= state << 5;
            rgba.push((state >> 24) as u8);
        }
        rgba.push(255);
    }
    Raster::new(width, height, rgba).unwrap()
}

fn as_image(r: &Raster) -> DynamicImage {
    DynamicImage::ImageRgba8(RgbaImage::from_raw(r.width, r.height, r.rgba.clone()).unwrap())
}

#[test]
fn jpeg_under_budget_on_first_attempt() {
    let out = compress_jpeg(&solid(10, 10), 1_000_000).ok().unwrap();
    assert_eq!(out.attempts(), 1);
    assert!(out.met_budget);
    assert_eq!(out.knobs, Knobs::Jpeg { quality: 90, scale_tenths: 10 });
    assert_eq!(out.attempt_sizes[0], out.bytes.len());
    assert_eq!(&out.bytes[..2], &[0xFF, 0xD8]);
}

#[test]
fn jpeg_tiny_budget_exhausts_the_walk() {
    let out = compress_jpeg(&noisy(200, 200), 100).ok().unwrap();
    assert_eq!(out.attempts(), 18);
    assert!(!out.met_budget);
    assert_eq!(out.knobs, Knobs::Jpeg { quality: 10, scale_tenths: 1 });
    assert!(out.bytes.len() > 100);
    assert!(out.attempt_sizes.iter().all(|&n| n > 100));
    assert_eq!(out.attempt_sizes[17], out.bytes.len());
}

#[test]
fn jpeg_met_budget_after_tightening_is_smaller_than_first() {
    let img = noisy(120, 120);
    let first = compress_jpeg(&img, u64::MAX).ok().unwrap().bytes.len();
    let budget = (first / 2) as u64;
    let out = compress_jpeg(&img, budget).ok().unwrap();
    assert!(out.attempts() > 1);
    assert_eq!(out.attempt_sizes[0], first);
    assert_eq!(out.met_budget, out.bytes.len() as u64 <= budget);
    if out.met_budget {
        assert!(out.bytes.len() < first);
    }
}

#[test]
fn png_under_budget_after_one_optimize_pass() {
    let out = compress_png(&solid(10, 10), 1_000_000).ok().unwrap();
    assert_eq!(out.attempts(), 1);
    assert!(out.met_budget);
    assert_eq!(out.knobs, Knobs::Png { scale_tenths: 10 });
    assert_eq!(&out.bytes[1..4], b"PNG");
}

#[test]
fn png_tiny_budget_walks_scale_to_floor() {
    let out = compress_png(&noisy(60, 60), 10).ok().unwrap();
    assert_eq!(out.attempts(), 10);
    assert!(!out.met_budget);
    assert_eq!(out.knobs, Knobs::Png { scale_tenths: 1 });
}

#[test]
fn webp_under_budget_and_exhausted() {
    let ok = compress_webp(&solid(10, 10), 1_000_000).ok().unwrap();
    assert_eq!(ok.attempts(), 1);
    assert!(ok.met_budget);
    assert_eq!(&ok.bytes[..4], b"RIFF");
    let tight = compress_webp(&noisy(60, 60), 5).ok().unwrap();
    assert_eq!(tight.attempts(), 10);
    assert!(!tight.met_budget);
    assert_eq!(tight.knobs, Knobs::Webp { scale_tenths: 1 });
}

#[test]
fn met_flag_matches_length_against_budget() {
    for budget in [1u64, 300, 2_000, 50_000] {
        let out = compress_with(&noisy(40, 40), budget, Codec::Jpeg).ok().unwrap();
        assert_eq!(out.met_budget, out.bytes.len() as u64 <= budget);
    }
}

#[test]
fn optimizer_never_lengthens_png() {
    let img = as_image(&noisy(30, 30));
    let mut raw = std::io::Cursor::new(Vec::new());
    img.write_to(&mut raw, image::ImageFormat::Png).unwrap();
    let raw = raw.into_inner();
    let optimized = optimize_png_bytes(&raw).ok().unwrap();
    assert!(optimized.len() <= raw.len());
    let solid_img = as_image(&solid(64, 64));
    let mut plain = std::io::Cursor::new(Vec::new());
    solid_img.write_to(&mut plain, image::ImageFormat::Png).unwrap();
    let plain = plain.into_inner();
    let shrunk = optimize_png_bytes(&plain).ok().unwrap();
    assert!(shrunk.len() < plain.len());
}

#[test]
fn optimizer_rejects_non_png() {
    assert!(matches!(optimize_png_bytes(&vec![1, 2, 3]), Err(CompressError::Optimize(_))));
}

#[test]
fn empty_raster_fails_the_search() {
    let r = compress_jpeg(&solid(0, 0), 10);
    assert!(matches!(r, Err(CompressError::Image(_))));
    let r = compress_png(&solid(0, 5), 10);
    assert!(matches!(r, Err(CompressError::Image(_)) | Err(CompressError::EmptyRaster)));
}

#[test]
fn scaled_dimension_rounds_down() {
    assert_eq!(scaled_dimension(25, 3), 7);
    assert_eq!(scaled_dimension(200, 10), 200);
    assert_eq!(scaled_dimension(9, 1), 0);
    assert_eq!(scaled_dimension(u32::MAX, 10), u32::MAX);
}

#[test]
fn resized_attempts_shrink_the_output() {
    let img = noisy(100, 100);
    let full = compress_jpeg(&img, u64::MAX).ok().unwrap().bytes.len();
    let out = compress_jpeg(&img, 1).ok().unwrap();
    assert!(out.bytes.len() < full);
}

#[test]
fn raster_new_checks_buffer_length() {
    assert!(Raster::new(2, 2, vec![0; 16]).is_some());
    assert!(Raster::new(2, 2, vec![0; 15]).is_none());
    assert!(Raster::new(0, 7, Vec::new()).is_some());
}

#[test]
fn jpeg_artifact_is_a_jpeg_stream_of_the_raster() {
    let raster = solid(16, 16);
    let out = compress_jpeg(&raster, 1_000_000).ok().unwrap();
    let mut direct = Vec::new();
    let mut enc = image::codecs::jpeg::JpegEncoder::new_with_quality(&mut direct, 90);
    enc.encode_image(&as_image(&raster).to_rgba8()).unwrap();
    assert_eq!(out.bytes, direct);
}

#[test]
fn equal_searches_give_equal_results() {
    let raster = noisy(50, 50);
    let a = compress_with(&raster, 900, Codec::Webp).ok().unwrap();
    let b = compress_with(&raster, 900, Codec::Webp).ok().unwrap();
    assert_eq!(a.bytes, b.bytes);
    assert_eq!(a.attempt_sizes, b.attempt_sizes);
    assert_eq!(a.knobs, b.knobs);
}

#[test]
fn looser_budget_stops_no_later() {
    let raster = noisy(80, 80);
    let tight = compress_jpeg(&raster, 1_000).ok().unwrap();
    let loose = compress_jpeg(&raster, 4_000).ok().unwrap();
    assert!(loose.attempts() <= tight.attempts());
}
