//! The outside collaborators that the search drives: the image crate's
//! encoders and resize filter, oxipng's PNG optimizer, and parse-size.
//! Each is reached through one small function whose contract states what the
//! crate's source shows.
use crate::knobs::Codec;
use crate::raster::Raster;
use vstd::prelude::*;
use vstd::string::StringSliceAdditionalSpecFns;

verus! {

/// The image crate's error, carried through unchanged.
#[verifier::external_type_specification]
#[verifier::external_body]
pub struct ExImageError(image::ImageError);

/// oxipng's error, carried through unchanged.
#[verifier::external_type_specification]
#[verifier::external_body]
pub struct ExPngError(oxipng::PngError);

/// What `parse_size::parse_size` makes of a text: `Some(bytes)` where it
/// accepts it, `None` where it rejects it.
pub uninterp spec fn parsed_size(text: Seq<char>) -> Option<u64>;

/// What `DynamicImage::resize` with Lanczos3 makes of an RGBA raster asked to
/// fit a bound: width, height and RGBA bytes of the result.
pub uninterp spec fn resized_rgba(
    width: u32,
    height: u32,
    rgba: Seq<u8>,
    nwidth: u32,
    nheight: u32,
) -> (u32, u32, Seq<u8>);

/// The image crate's JPEG stream for an RGBA raster at a quality, or `None`
/// where the encoder fails.
pub uninterp spec fn jpeg_stream(width: u32, height: u32, rgba: Seq<u8>, quality: u8) -> Option<
    Seq<u8>,
>;

/// The image crate's stream for an RGBA raster in a codec's format at its
/// default parameters, or `None` where the encoder fails.
pub uninterp spec fn default_stream(width: u32, height: u32, rgba: Seq<u8>, codec: Codec) -> Option<
    Seq<u8>,
>;

/// oxipng's output for a PNG stream at a preset, or `None` where it fails.
pub uninterp spec fn optimized_png(png: Seq<u8>, preset: u8) -> Option<Seq<u8>>;

/// Number of ASCII digit bytes in a byte string.
pub open spec fn ascii_digit_count(bytes: Seq<u8>) -> nat
    decreases bytes.len(),
{
    if bytes.len() == 0 {
        0
    } else {
        ascii_digit_count(bytes.drop_last()) + if 48 <= bytes.last() <= 57 {
            1nat
        } else {
            0nat
        }
    }
}

/// Relies on `DynamicImage::resize` with the Lanczos3 filter: a new raster
/// that fits within the given bounds, aspect ratio kept, at least one pixel
/// each way; its buffer is exactly its pixels.
#[verifier::external_body]
pub(crate) fn resize_within(src: &Raster, width: u32, height: u32) -> (r: Raster)
    requires
        src.wf(),
        src.width > 0,
        src.height > 0,
    ensures
        r.wf(),
        (r.width, r.height, r.rgba@) == resized_rgba(src.width, src.height, src.rgba@, width, height),
{
    let buffer = image::RgbaImage::from_raw(src.width, src.height, src.rgba.clone()).unwrap();
    let img = image::DynamicImage::ImageRgba8(buffer);
    let out = img.resize(width, height, image::imageops::FilterType::Lanczos3).into_rgba8();
    Raster { width: out.width(), height: out.height(), rgba: out.into_raw() }
}

/// Relies on `JpegEncoder::new_with_quality` and `encode_image`: a JPEG
/// stream at the given quality (the encoder clamps it to 1..=100).
#[verifier::external_body]
pub(crate) fn encode_jpeg(src: &Raster, quality: u8) -> (r: Result<Vec<u8>, image::ImageError>)
    requires
        src.wf(),
    ensures
        match r {
            Ok(b) => jpeg_stream(src.width, src.height, src.rgba@, quality) == Some(b@),
            Err(_) => jpeg_stream(src.width, src.height, src.rgba@, quality) is None,
        },
{
    let pixels = image::ImageBuffer::<image::Rgba<u8>, &[u8]>::from_raw(
        src.width, src.height, src.rgba.as_slice()).unwrap();
    let mut buffer = Vec::new();
    let mut encoder = image::codecs::jpeg::JpegEncoder::new_with_quality(&mut buffer, quality);
    encoder.encode_image(&pixels)?;
    Ok(buffer)
}

/// Relies on `DynamicImage::write_to` with the image format of the codec:
/// the encoder's default parameters (lossless for PNG and WebP).
#[verifier::external_body]
pub(crate) fn encode_default(src: &Raster, codec: Codec) -> (r: Result<Vec<u8>, image::ImageError>)
    requires
        src.wf(),
    ensures
        match r {
            Ok(b) => default_stream(src.width, src.height, src.rgba@, codec) == Some(b@),
            Err(_) => default_stream(src.width, src.height, src.rgba@, codec) is None,
        },
{
    let format = match codec {
        Codec::Jpeg => image::ImageFormat::Jpeg,
        Codec::Png => image::ImageFormat::Png,
        Codec::Webp => image::ImageFormat::WebP,
    };
    let buffer = image::RgbaImage::from_raw(src.width, src.height, src.rgba.clone()).unwrap();
    let mut cursor = std::io::Cursor::new(Vec::new());
    image::DynamicImage::ImageRgba8(buffer).write_to(&mut cursor, format)?;
    Ok(cursor.into_inner())
}

/// Relies on `oxipng::optimize_from_memory` with `Options::from_preset`:
/// with `force` off (as every preset leaves it) it hands back the input
/// itself when it could not make it smaller, so the output is never longer.
#[verifier::external_body]
pub(crate) fn optimize_png_stream(png: &Vec<u8>, preset: u8) -> (r: Result<
    Vec<u8>,
    oxipng::PngError,
>)
    ensures
        match r {
            Ok(out) => optimized_png(png@, preset) == Some(out@) && out@.len() <= png@.len(),
            Err(_) => optimized_png(png@, preset) is None,
        },
{
    oxipng::optimize_from_memory(png, &oxipng::Options::from_preset(preset))
}

/// Relies on `parse_size::parse_size`: a size text such as "500KB" or
/// "1MB" read as a byte count; an empty text is rejected. With at most 19
/// digits its mantissa cannot reach the `u64` limit, where it would panic.
#[verifier::external_body]
pub(crate) fn parse_size_text(text: &str) -> (r: Option<u64>)
    requires
        ascii_digit_count(text.spec_bytes()) <= 19,
    ensures
        r == parsed_size(text@),
        text@.len() == 0 ==> r is None,
{
    parse_size::parse_size(text).ok()
}

} // verus!
