//! Decoded pictures, and the two operations that the `image` crate performs on
//! them: decoding and resampling.

use vstd::prelude::*;

verus! {

/// The error of the decoder, `image::ImageError`: carried, never read.
#[verifier::external_type_specification]
#[verifier::external_body]
pub struct ExImageError(image::ImageError);

/// A decoded picture: rows from top to bottom, pixels from left to right, and
/// for each pixel its red, green and blue sample.
#[derive(Clone, Debug, PartialEq, Eq)]
pub struct RgbImage {
    pub width: u32,
    pub height: u32,
    pub pixels: Vec<u8>,
}

impl RgbImage {
    /// The buffer holds three samples for each pixel, and nothing more.
    pub open spec fn well_formed(&self) -> bool {
        self.pixels@.len() == 3 * self.width * self.height
    }

    /// Neither side of the picture is zero.
    pub open spec fn has_area(&self) -> bool {
        self.width > 0 && self.height > 0
    }
}

/// Position in the buffer of a `width` pixels wide picture at which the sample
/// of `channel` stands for the pixel in column `x` of row `y`.
pub open spec fn sample_index(width: int, x: int, y: int, channel: int) -> int {
    (y * width + x) * 3 + channel
}

/// The samples of the picture that `image::imageops::resize` makes, with the
/// triangle filter, of a picture of `width` by `height` pixels when asked for
/// one of `new_width` by `new_height`.
pub uninterp spec fn resampled(
    pixels: Seq<u8>,
    width: u32,
    height: u32,
    new_width: u32,
    new_height: u32,
) -> Seq<u8>;

/// Decodes an encoded picture and converts it to 8-bit RGB.
///
/// Calls `image::load_from_memory`, which guesses the format from the first
/// bytes, and `DynamicImage::to_rgb8`. All that is claimed is that the buffer
/// handed back has three samples per pixel.
#[verifier::external_body]
pub(crate) fn decode_rgb(bytes: &[u8]) -> (r: Result<RgbImage, image::ImageError>)
    ensures
        r is Ok ==> r->Ok_0.well_formed(),
{
    let buffer = image::load_from_memory(bytes)?.to_rgb8();
    Ok(RgbImage { width: buffer.width(), height: buffer.height(), pixels: buffer.into_raw() })
}

/// Resamples a picture to `new_width` by `new_height` pixels.
///
/// Calls `image::ImageBuffer::from_raw`, which accepts every buffer that is
/// large enough for the dimensions, and `image::imageops::resize` with
/// `FilterType::Triangle`. The result has the dimensions asked for, three
/// samples per pixel, and the samples that `resampled` names.
#[verifier::external_body]
pub(crate) fn resample(image: &RgbImage, new_width: u32, new_height: u32) -> (r: Option<RgbImage>)
    requires
        image.well_formed(),
        image.has_area(),
        new_width > 0,
        new_height > 0,
    ensures
        r is Some,
        r->Some_0.width == new_width,
        r->Some_0.height == new_height,
        r->Some_0.well_formed(),
        r->Some_0.pixels@ == resampled(
            image.pixels@,
            image.width,
            image.height,
            new_width,
            new_height,
        ),
{
    let source = image::ImageBuffer::<image::Rgb<u8>, &[u8]>::from_raw(
        image.width,
        image.height,
        image.pixels.as_slice(),
    )?;
    let out = image::imageops::resize(
        &source,
        new_width,
        new_height,
        image::imageops::FilterType::Triangle,
    );
    Some(RgbImage { width: out.width(), height: out.height(), pixels: out.into_raw() })
}

} // verus!
