//! The thumbnail pipeline: raw artwork bytes to transport-ready metadata.
//!
//! Decode the bytes as an image; crop the fixed rectangle at (34, 1) of size
//! 233 by 233 to remove the vendor watermark baked into the artwork; run the
//! lightness exclusion filter and extract the prominent and average colors
//! of what remains; classify the prominent color into a named swatch;
//! re-encode the crop as PNG and wrap it base64 for transport. Failure at
//! any step yields the documented defaults instead of aborting the event
//! that needed the thumbnail.

use vstd::prelude::*;

use crate::color::allowed_pixels;
use crate::color::average_color;
use crate::color::classify_color;
use crate::color::classify_spec;
use crate::color::default_color;
use crate::color::extracted_prominent;
use crate::color::filter_allowed_pixels;
use crate::color::get_color_palette;
use crate::color::spec_average;
use crate::events::Rgb;
use crate::events::ThumbnailData;
use crate::image_data::clamped_extent;
use crate::image_data::clamped_origin;
use crate::image_data::crop_region;
use crate::image_data::decode_rgb_image;
use crate::image_data::decoded_image;
use crate::image_data::Image;

verus! {

/// Left edge of the crop rectangle that removes the vendor watermark.
pub const CROP_X: usize = 34;

/// Top edge of the crop rectangle.
pub const CROP_Y: usize = 1;

/// Side length of the (square) crop rectangle.
pub const CROP_SIZE: usize = 233;

/// Why the pipeline could produce no thumbnail; the caller falls back to
/// the default thumbnail data in either case.
#[derive(Clone, Copy, PartialEq, Eq, Structural, Debug)]
pub enum ThumbnailError {
    /// The bytes could not be decoded as an image.
    Undecodable,
    /// The decoded image lies entirely outside the crop rectangle.
    EmptyCrop,
}

/// The PNG encoding of an image, as a function of its dimensions and pixels.
pub uninterp spec fn png_bytes(width: nat, height: nat, pixels: Seq<Rgb>) -> Seq<u8>;

/// The base64 encoding of a byte string (standard alphabet, padded).
pub uninterp spec fn base64_chars(bytes: Seq<u8>) -> Seq<char>;

/// Relies on the `image` crate's PNG encoder (`ImageBuffer::write_to` with
/// the PNG output format): the encoding is lossless and deterministic in the
/// dimensions and pixel buffer. The encoder refuses empty images, and PNG
/// itself caps each dimension at 2^31 - 1, so only positive dimensions
/// within that bound are admitted.
#[verifier::external_body]
fn encode_png(img: &Image) -> (r: Vec<u8>)
    requires
        1 <= img.width() <= 0x7fff_ffff,
        1 <= img.height() <= 0x7fff_ffff,
    ensures
        r@ == png_bytes(img.width(), img.height(), img.pixels()),
{
    let data: Vec<u8> = img.pixel_data().iter().flat_map(|p| [p.r, p.g, p.b]).collect();
    let buffer = image::RgbImage::from_raw(
        img.get_width() as u32,
        img.get_height() as u32,
        data,
    ).unwrap();
    let mut cursor = std::io::Cursor::new(Vec::new());
    buffer.write_to(&mut cursor, image::ImageOutputFormat::Png).unwrap();
    cursor.into_inner()
}

/// Relies on `base64::encode` (standard alphabet, padded): deterministic in
/// the bytes, four output characters for every started group of three input
/// bytes.
#[verifier::external_body]
fn base64_encode(bytes: &Vec<u8>) -> (r: String)
    ensures
        r@ == base64_chars(bytes@),
        r@.len() == 4 * ((bytes@.len() + 2) / 3),
{
    base64::encode(bytes.as_slice())
}

/// The prominent color of the filtered pixels, or the default color when
/// extraction yields nothing — because every pixel was excluded, or because
/// the pixels exceed the extractor's safe color budget.
pub open spec fn prominent_or_default(filtered: Seq<Rgb>) -> Rgb {
    match extracted_prominent(filtered) {
        Some(c) => c,
        None => default_color(),
    }
}

/// The average color of the filtered pixels, or the default color when no
/// pixel survived the filter.
pub open spec fn average_or_default(filtered: Seq<Rgb>) -> Rgb {
    if filtered.len() == 0 {
        default_color()
    } else {
        spec_average(filtered)
    }
}

/// What the pipeline produces from a decoded image of the given dimensions
/// and pixels: the watermark rectangle is cropped out, the lightness filter
/// picks the pixels that feed color extraction, and the crop is re-encoded
/// as base64-wrapped PNG.
pub open spec fn thumbnail_of_image(t: ThumbnailData, w: nat, h: nat, pixels: Seq<Rgb>) -> bool {
    let cx = clamped_origin(CROP_X as nat, w);
    let cy = clamped_origin(CROP_Y as nat, h);
    let cw = clamped_extent(CROP_SIZE as nat, CROP_X as nat, w);
    let ch = clamped_extent(CROP_SIZE as nat, CROP_Y as nat, h);
    let cropped = crop_region(pixels, w, cx, cy, cw, ch);
    let filtered = allowed_pixels(cropped);
    &&& t.prominant_color == prominent_or_default(filtered)
    &&& t.average_color == average_or_default(filtered)
    &&& t.palette == classify_spec(t.prominant_color)
    &&& t.base64@ == base64_chars(png_bytes(cw, ch, cropped))
}

/// The defaults used when no artwork is available or the pipeline failed:
/// no transport image and the default color everywhere.
pub open spec fn is_fallback_thumbnail(t: ThumbnailData) -> bool {
    &&& t.base64@.len() == 0
    &&& t.prominant_color == default_color()
    &&& t.average_color == default_color()
    &&& t.palette == classify_spec(default_color())
}

/// What the thumbnail carried by a published media-properties event holds
/// for given artwork: the pipeline's result when the artwork decodes and
/// the crop is non-empty, the fallback defaults otherwise.
pub open spec fn thumbnail_for_artwork(t: ThumbnailData, artwork: Option<Seq<u8>>) -> bool {
    match artwork {
        None => is_fallback_thumbnail(t),
        Some(bytes) => match decoded_image(bytes) {
            None => is_fallback_thumbnail(t),
            Some((w, h, pixels)) => {
                if clamped_extent(CROP_SIZE as nat, CROP_X as nat, w) == 0 || clamped_extent(
                    CROP_SIZE as nat,
                    CROP_Y as nat,
                    h,
                ) == 0 {
                    is_fallback_thumbnail(t)
                } else {
                    thumbnail_of_image(t, w, h, pixels)
                }
            },
        },
    }
}

impl ThumbnailData {
    /// The defaults for a missing or failed thumbnail: empty transport
    /// string, default prominent and average colors, and the swatch that
    /// color classifies into.
    pub fn fallback() -> (t: ThumbnailData)
        ensures
            is_fallback_thumbnail(t),
    {
        let c = Rgb { r: 245, g: 245, b: 245 };
        ThumbnailData {
            base64: String::new(),
            palette: classify_color(&c),
            prominant_color: c,
            average_color: c,
        }
    }
}

/// Law: artwork of at least 267 by 234 pixels is cropped to exactly 233 by
/// 233 — the full crop rectangle fits.
pub proof fn lemma_full_crop_dimensions(w: nat, h: nat)
    requires
        w >= 267,
        h >= 234,
    ensures
        clamped_extent(CROP_SIZE as nat, CROP_X as nat, w) == 233,
        clamped_extent(CROP_SIZE as nat, CROP_Y as nat, h) == 233,
{
}

/// Runs the pipeline on raw artwork bytes: decode, crop out the watermark,
/// filter by lightness, extract and classify the dominant colors, re-encode.
/// Bytes that do not decode, or whose image lies outside the crop rectangle,
/// yield the error for the caller's fallback.
pub fn get_thumbnail_data(bytes: &Vec<u8>) -> (r: Result<ThumbnailData, ThumbnailError>)
    ensures
        decoded_image(bytes@) is None <==> r == Err::<ThumbnailData, ThumbnailError>(ThumbnailError::Undecodable),
        decoded_image(bytes@) matches Some((w, h, pixels)) ==> {
            if clamped_extent(CROP_SIZE as nat, CROP_X as nat, w) == 0 || clamped_extent(
                CROP_SIZE as nat,
                CROP_Y as nat,
                h,
            ) == 0 {
                r == Err::<ThumbnailData, ThumbnailError>(ThumbnailError::EmptyCrop)
            } else {
                r matches Ok(t) && thumbnail_of_image(t, w, h, pixels)
            }
        },
{
    let img = match decode_rgb_image(bytes) {
        Some(img) => img,
        None => {
            return Err(ThumbnailError::Undecodable);
        },
    };
    let cropped = img.crop(CROP_X, CROP_Y, CROP_SIZE, CROP_SIZE);
    if cropped.get_width() == 0 || cropped.get_height() == 0 {
        return Err(ThumbnailError::EmptyCrop);
    }
    proof {
        assert(cropped.width() * cropped.height() <= u32::MAX) by (nonlinear_arith)
            requires
                0 < cropped.width() <= 233,
                0 < cropped.height() <= 233,
        ;
    }
    let filtered = filter_allowed_pixels(cropped.pixel_data());
    let prominent = match get_color_palette(&cropped) {
        Some(c) => c,
        None => Rgb { r: 245, g: 245, b: 245 },
    };
    let average = match average_color(&filtered) {
        Some(c) => c,
        None => Rgb { r: 245, g: 245, b: 245 },
    };
    let palette = classify_color(&prominent);
    let png = encode_png(&cropped);
    let base64 = base64_encode(&png);
    Ok(ThumbnailData { base64, palette, prominant_color: prominent, average_color: average })
}

} // verus!
