//! The decoded image: the bytes read back from the staging buffer, held as
//! an image buffer of the padded size that the host can draw.

use vstd::prelude::*;
use crate::frame::{ImageFormat, Presentation};

verus! {

/// An in-memory pixel buffer of `piet`: raw bytes with a width, a height and
/// a pixel format.
#[verifier::external_type_specification]
#[verifier::external_body]
pub struct ExImageBuf(piet::ImageBuf);

/// The bytes that an image buffer holds, row after row: what its
/// `raw_pixels` gives.
pub uninterp spec fn image_pixels(image: piet::ImageBuf) -> Seq<u8>;

/// Width and height of an image buffer, in pixels: what its `width` and its
/// `height` give.
pub uninterp spec fn image_size(image: piet::ImageBuf) -> (nat, nat);

/// Pixel format of an image buffer that was made in one of the two RGBA
/// formats: what its `format` gives.
pub uninterp spec fn image_format(image: piet::ImageBuf) -> ImageFormat;

/// Calls `piet::ImageBuf::from_raw`, which copies `pixels` into a new image
/// buffer and panics unless there are as many bytes as `width` x `height`
/// pixels take in the format, which is four each in both RGBA formats. The
/// buffer holds the bytes and has the width, the height and the format that
/// it was made with.
#[verifier::external_body]
fn image_from_raw(pixels: &[u8], format: ImageFormat, width: usize, height: usize) -> (image:
    piet::ImageBuf)
    requires
        pixels@.len() == width * height * 4,
    ensures
        image_pixels(image) == pixels@,
        image_size(image) == (width as nat, height as nat),
        image_format(image) == format,
{
    let format = match format {
        ImageFormat::RgbaSeparate => piet::ImageFormat::RgbaSeparate,
        ImageFormat::RgbaPremul => piet::ImageFormat::RgbaPremul,
    };
    piet::ImageBuf::from_raw(pixels, format, width, height)
}

/// Decodes the bytes read back from the staging buffer into the image that
/// `shown` presents: an image buffer of the padded size, in the format of
/// the presentation, that holds those bytes. There must be as many bytes as
/// the image has pixels, times four.
pub fn decode(shown: &Presentation, mapped: &[u8]) -> (image: piet::ImageBuf)
    requires
        mapped@.len() == 4 * shown.image_width * shown.image_height,
    ensures
        image_pixels(image) == mapped@,
        image_size(image) == (shown.image_width as nat, shown.image_height as nat),
        image_format(image) == shown.format,
{
    let width: usize = shown.image_width as usize;
    let height: usize = shown.image_height as usize;
    assert(width * height * 4 == 4 * shown.image_width * shown.image_height) by (nonlinear_arith)
        requires
            width == shown.image_width,
            height == shown.image_height,
    ;
    image_from_raw(mapped, shown.format, width, height)
}

} // verus!
