//! Trusted boundary to the resampling routine of the `image` crate.

use vstd::prelude::*;

verus! {

/// The bytes produced by triangle-filter resampling of a flat row-major RGB
/// buffer of dimensions `width` by `height` down to `new_width` by
/// `new_height`. The resampling is a pure function of the pixel data and the
/// four dimensions, so its outcome is given this name rather than restated.
pub uninterp spec fn triangle_resample(
    pixels: Seq<u8>,
    width: int,
    height: int,
    new_width: int,
    new_height: int,
) -> Seq<u8>;

/// Relies on `image::imageops::resize` with `FilterType::Triangle`: it
/// resamples the raster to exactly `new_width` by `new_height`, returning an
/// `ImageBuffer` whose flat buffer holds three bytes per output pixel, and it
/// returns an untouched copy of the input when the dimensions are unchanged.
#[verifier::external_body]
pub(crate) fn triangle_resize(
    pixels: &Vec<u8>,
    width: u32,
    height: u32,
    new_width: u32,
    new_height: u32,
) -> (r: Vec<u8>)
    requires
        pixels@.len() == width * height * 3,
        width > 0,
        height > 0,
        new_width > 0,
        new_height > 0,
    ensures
        r@ == triangle_resample(
            pixels@,
            width as int,
            height as int,
            new_width as int,
            new_height as int,
        ),
        r@.len() == new_width * new_height * 3,
        (new_width == width && new_height == height) ==> r@ == pixels@,
{
    let img: image::ImageBuffer<image::Rgb<u8>, Vec<u8>> =
        image::ImageBuffer::from_vec(width, height, pixels.clone())
            .expect("buffer length matches the dimensions");
    let out = image::imageops::resize(&img, new_width, new_height, image::imageops::FilterType::Triangle);
    out.into_vec()
}

} // verus!
