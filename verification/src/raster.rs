//! The decoded raster the compressor works on: plain 8-bit RGB pixels.

use vstd::prelude::*;

verus! {

/// A decoded raster image, normalized to 3-channel 8-bit RGB.
///
/// The pixel data is a flat row-major byte buffer, three bytes (R, G, B) per
/// pixel, so its length is exactly `width * height * 3`. Either dimension may
/// be zero, in which case the buffer is empty.
pub struct Raster {
    width: u32,
    height: u32,
    pixels: Vec<u8>,
}

impl Raster {
    /// The width of the raster, in pixels.
    pub closed spec fn spec_width(self) -> u32 {
        self.width
    }

    /// The height of the raster, in pixels.
    pub closed spec fn spec_height(self) -> u32 {
        self.height
    }

    /// The flat row-major RGB byte buffer.
    pub closed spec fn spec_pixels(self) -> Seq<u8> {
        self.pixels@
    }

    /// The buffer holds exactly three bytes per pixel.
    pub open spec fn wf(self) -> bool {
        self.spec_pixels().len() == self.spec_width() * self.spec_height() * 3
    }

    /// Build a raster from its dimensions and a flat row-major RGB buffer.
    ///
    /// Returns `None` exactly when the buffer length is not
    /// `width * height * 3`.
    pub fn new(width: u32, height: u32, pixels: Vec<u8>) -> (r: Option<Raster>)
        ensures
            r is Some <==> pixels@.len() == width * height * 3,
            r matches Some(raster) ==> raster.spec_width() == width
                && raster.spec_height() == height
                && raster.spec_pixels() == pixels@
                && raster.wf(),
    {
        proof {
            assert((width as int) * (height as int) * 3 <= (u32::MAX as int) * (u32::MAX as int)
                * 3) by (nonlinear_arith)
                requires
                    width <= u32::MAX,
                    height <= u32::MAX,
            ;
        }
        let expected: u128 = (width as u128) * (height as u128) * 3;
        if (pixels.len() as u128) == expected {
            Some(Raster { width, height, pixels })
        } else {
            None
        }
    }

    /// Getter for the width, in pixels.
    pub fn width(&self) -> (r: u32)
        ensures
            r == self.spec_width(),
    {
        self.width
    }

    /// Getter for the height, in pixels.
    pub fn height(&self) -> (r: u32)
        ensures
            r == self.spec_height(),
    {
        self.height
    }

    /// Borrow the flat RGB byte buffer.
    pub fn pixels(&self) -> (r: &Vec<u8>)
        ensures
            r@ == self.spec_pixels(),
    {
        &self.pixels
    }
}

} // verus!
