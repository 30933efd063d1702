//! The resize-and-encode pipeline: `Compressor` owns one raster and one
//! `Factor`, resizes the raster by the factor's ratio, and re-encodes the
//! result as a JPEG at the factor's quality.

use vstd::prelude::*;
use vstd::arithmetic::div_mod::{
    lemma_basic_div, lemma_div_is_ordered, lemma_div_multiples_vanish, lemma_mod_self_0,
};
use vstd::arithmetic::mul::{lemma_mul_inequality, lemma_mul_is_commutative};
use vstd::slice::slice_subrange;
use crate::factor::{Factor, RATIO_SCALE};
use crate::jpeg::{
    comp_data_to_vec, comp_fed, comp_finish, comp_finished, comp_height, comp_mem_dest,
    comp_enable_optimize_scans, comp_new_rgb, comp_optimize_scans, comp_quality, comp_rgb,
    comp_scan_auto, comp_set_mem_dest, comp_set_quality, comp_set_scan_auto, comp_set_size,
    comp_start, comp_started, comp_width, comp_write_rows, jpeg_bytes, jpeg_framed, MAX_DIMENSION,
};
use crate::raster::Raster;
use crate::resize::{triangle_resample, triangle_resize};

verus! {

/// Why an encoding attempt was rejected or failed.
#[derive(Debug, Clone, Copy, PartialEq, Eq, Structural)]
pub enum EncodeError {
    /// A target dimension is zero: there is no scanline to feed.
    EmptyImage,
    /// A target dimension exceeds the backend's `MAX_DIMENSION` cap.
    ImageTooLarge,
    /// The pixel buffer is not exactly `width * height * 3` bytes long.
    BufferSize,
    /// The compression backend could not take a scanline or hand back the
    /// finished stream.
    Backend,
}

/// A target dimension after scaling: `floor(dim * ratio)` with the ratio in
/// thousandths.
pub open spec fn target_dim(dim: int, ratio: int) -> int {
    dim * ratio / (RATIO_SCALE as int)
}

/// Both dimensions are non-zero and within the backend's cap.
pub open spec fn dims_in_range(width: int, height: int) -> bool {
    &&& 0 < width <= MAX_DIMENSION
    &&& 0 < height <= MAX_DIMENSION
}

/// Owns exactly one factor (replaceable as a whole) and one decoded raster
/// (fixed for the instance's lifetime), and composes the resize and encode
/// steps over them.
pub struct Compressor {
    factor: Factor,
    image: Raster,
}

impl Compressor {
    /// The stored factor.
    pub closed spec fn spec_factor(self) -> Factor {
        self.factor
    }

    /// The stored raster.
    pub closed spec fn spec_image(self) -> Raster {
        self.image
    }

    /// The stored factor and raster are well-formed.
    pub open spec fn wf(self) -> bool {
        &&& self.spec_factor().wf()
        &&& self.spec_image().wf()
    }

    /// The width the stored raster is resized to.
    pub open spec fn spec_target_width(self) -> int {
        target_dim(
            self.spec_image().spec_width() as int,
            self.spec_factor().spec_size_ratio() as int,
        )
    }

    /// The height the stored raster is resized to.
    pub open spec fn spec_target_height(self) -> int {
        target_dim(
            self.spec_image().spec_height() as int,
            self.spec_factor().spec_size_ratio() as int,
        )
    }

    /// The bytes a successful `compress_image` returns: the stored raster,
    /// resampled to the target dimensions, encoded at the stored quality.
    pub open spec fn spec_output(self) -> Seq<u8> {
        jpeg_bytes(
            triangle_resample(
                self.spec_image().spec_pixels(),
                self.spec_image().spec_width() as int,
                self.spec_image().spec_height() as int,
                self.spec_target_width(),
                self.spec_target_height(),
            ),
            self.spec_target_width(),
            self.spec_target_height(),
            self.spec_factor().spec_quality() as int,
        )
    }

    /// Create a new compressor for one raster, with the default factor.
    pub fn new(image: Raster) -> (r: Compressor)
        requires
            image.wf(),
        ensures
            r.spec_image() == image,
            r.spec_factor().spec_quality() == 80,
            r.spec_factor().spec_size_ratio() == 800,
            r.wf(),
    {
        Compressor { factor: Factor::default(), image }
    }

    /// Replace the stored factor wholesale.
    pub fn set_factor(&mut self, factor: Factor)
        requires
            factor.wf(),
        ensures
            final(self).spec_factor() == factor,
            final(self).spec_image() == old(self).spec_image(),
            old(self).spec_image().wf() ==> final(self).wf(),
    {
        self.factor = factor;
    }

    /// Resample the stored raster by `resize_ratio` thousandths with the
    /// triangle filter.
    ///
    /// Returns the flat row-major RGB buffer and the target width and height,
    /// which are `floor(dim * ratio)` of the stored dimensions; the buffer
    /// holds exactly three bytes per target pixel. A ratio that truncates a
    /// dimension to zero yields an empty buffer, and the identity ratio
    /// returns the stored dimensions and pixels unchanged.
    pub fn resize(&self, resize_ratio: u32) -> (r: (Vec<u8>, usize, usize))
        requires
            self.wf(),
            0 < resize_ratio <= RATIO_SCALE,
        ensures
            r.1 == target_dim(self.spec_image().spec_width() as int, resize_ratio as int),
            r.2 == target_dim(self.spec_image().spec_height() as int, resize_ratio as int),
            r.0@.len() == r.1 * r.2 * 3,
            r.1 > 0 && r.2 > 0 ==> r.0@ == triangle_resample(
                self.spec_image().spec_pixels(),
                self.spec_image().spec_width() as int,
                self.spec_image().spec_height() as int,
                r.1 as int,
                r.2 as int,
            ),
            r.1 == 0 || r.2 == 0 ==> r.0@ == Seq::<u8>::empty(),
            r.1 == self.spec_image().spec_width() && r.2 == self.spec_image().spec_height()
                ==> r.0@ == self.spec_image().spec_pixels(),
    {
        let width = self.image.width();
        let height = self.image.height();
        proof {
            lemma_scaled_dim_bounds(width as int, resize_ratio as int);
            lemma_scaled_dim_bounds(height as int, resize_ratio as int);
        }
        let target_width = ((width as u64) * (resize_ratio as u64) / (RATIO_SCALE as u64)) as usize;
        let target_height = ((height as u64) * (resize_ratio as u64) / (RATIO_SCALE as u64))
            as usize;

        if target_width == 0 || target_height == 0 {
            proof {
                assert((target_width as int) * (target_height as int) * 3 == 0)
                    by (nonlinear_arith)
                    requires
                        target_width == 0 || target_height == 0,
                ;
                if target_width == self.spec_image().spec_width() && target_height
                    == self.spec_image().spec_height() {
                    assert(self.spec_image().spec_pixels().len() == 0) by (nonlinear_arith)
                        requires
                            self.spec_image().wf(),
                            self.spec_image().spec_width() == 0 || self.spec_image().spec_height()
                                == 0,
                    ;
                    assert(Seq::<u8>::empty() =~= self.spec_image().spec_pixels());
                }
            }
            (Vec::new(), target_width, target_height)
        } else {
            let buf = triangle_resize(
                self.image.pixels(),
                width,
                height,
                target_width as u32,
                target_height as u32,
            );
            proof {
                assert((target_width as u32) * (target_height as u32) * 3 == (target_width as int)
                    * (target_height as int) * 3) by (nonlinear_arith)
                    requires
                        target_width == target_width as u32 as int,
                        target_height == target_height as u32 as int,
                ;
            }
            (buf, target_width, target_height)
        }
    }

    /// Encode a flat row-major RGB buffer of the given dimensions as a JPEG
    /// at the given quality, feeding the backend one scanline at a time in
    /// top-to-bottom order.
    ///
    /// A zero dimension, an oversized dimension, and a buffer whose length is
    /// not `target_width * target_height * 3` are each rejected with the
    /// matching error instead of being handed to the backend; `Backend` is
    /// returned only when the backend itself fails on a well-formed request.
    /// On success the bytes are the backend's encoding of exactly this buffer
    /// and form a complete JPEG stream, start-of-image through end-of-image.
    pub fn compress(
        &self,
        resized_img_data: Vec<u8>,
        target_width: usize,
        target_height: usize,
        quality: u16,
    ) -> (r: Result<Vec<u8>, EncodeError>)
        requires
            0 < quality <= 100,
        ensures
            r == Err::<Vec<u8>, EncodeError>(EncodeError::EmptyImage) <==> (target_width == 0
                || target_height == 0),
            r == Err::<Vec<u8>, EncodeError>(EncodeError::ImageTooLarge) <==> (target_width > 0
                && target_height > 0 && (target_width > MAX_DIMENSION || target_height
                > MAX_DIMENSION)),
            r == Err::<Vec<u8>, EncodeError>(EncodeError::BufferSize) <==> (dims_in_range(
                target_width as int,
                target_height as int,
            ) && resized_img_data@.len() != target_width * target_height * 3),
            r matches Ok(v) ==> dims_in_range(target_width as int, target_height as int)
                && resized_img_data@.len() == target_width * target_height * 3
                && v@ == jpeg_bytes(
                resized_img_data@,
                target_width as int,
                target_height as int,
                quality as int,
            ) && jpeg_framed(v@),
            r == Err::<Vec<u8>, EncodeError>(EncodeError::Backend) ==> dims_in_range(
                target_width as int,
                target_height as int,
            ) && resized_img_data@.len() == target_width * target_height * 3,
    {
        if target_width == 0 || target_height == 0 {
            return Err(EncodeError::EmptyImage);
        }
        if target_width > MAX_DIMENSION || target_height > MAX_DIMENSION {
            return Err(EncodeError::ImageTooLarge);
        }
        proof {
            assert((target_width as int) * (target_height as int) * 3 <= 65500 * 65500 * 3)
                by (nonlinear_arith)
                requires
                    target_width <= 65500,
                    target_height <= 65500,
            ;
        }
        let expected: u64 = (target_width as u64) * (target_height as u64) * 3;
        if (resized_img_data.len() as u64) != expected {
            return Err(EncodeError::BufferSize);
        }
        let row_bytes: usize = target_width * 3;
        proof {
            assert((target_height as int) * (row_bytes as int) == (target_width as int)
                * (target_height as int) * 3) by (nonlinear_arith)
                requires
                    row_bytes == target_width * 3,
            ;
        }

        let mut comp = comp_new_rgb();
        comp_set_scan_auto(&mut comp);
        comp_set_quality(&mut comp, quality);
        comp_set_size(&mut comp, target_width, target_height);
        comp_set_mem_dest(&mut comp);
        comp_enable_optimize_scans(&mut comp);
        comp_start(&mut comp);
        proof {
            assert(comp_fed(comp) =~= resized_img_data@.subrange(0, 0));
        }

        let total: usize = resized_img_data.len();
        let mut line: usize = 0;
        while line < target_height
            invariant
                dims_in_range(target_width as int, target_height as int),
                1 <= quality <= 100,
                row_bytes == target_width * 3,
                total == resized_img_data@.len(),
                resized_img_data@.len() == target_height * row_bytes,
                line <= target_height,
                comp_rgb(comp),
                comp_scan_auto(comp),
                comp_optimize_scans(comp),
                comp_mem_dest(comp),
                comp_started(comp),
                !comp_finished(comp),
                comp_quality(comp) == quality as int,
                comp_width(comp) == target_width as int,
                comp_height(comp) == target_height as int,
                comp_fed(comp) == resized_img_data@.subrange(0, line * row_bytes),
            decreases target_height - line,
        {
            proof {
                lemma_mul_inequality(line as int, line as int + 1, row_bytes as int);
                lemma_mul_inequality(line as int + 1, target_height as int, row_bytes as int);
                assert((line as int + 1) * (row_bytes as int) == line as int * row_bytes
                    + row_bytes) by (nonlinear_arith);
                lemma_mod_self_0(row_bytes as int);
                assert((target_width as int) * (target_height as int) * 3 == (target_height as int)
                    * (row_bytes as int)) by (nonlinear_arith)
                    requires
                        row_bytes == target_width * 3,
                ;
            }
            let start = line * row_bytes;
            let end = (line + 1) * row_bytes;
            let row = slice_subrange(resized_img_data.as_slice(), start, end);
            let ok = comp_write_rows(&mut comp, row);
            if !ok {
                return Err(EncodeError::Backend);
            }
            proof {
                assert(resized_img_data@.subrange(0, end as int) =~= resized_img_data@.subrange(
                    0,
                    start as int,
                ) + resized_img_data@.subrange(start as int, end as int));
            }
            line = line + 1;
        }
        proof {
            assert(comp_fed(comp) =~= resized_img_data@);
            assert((target_width as int) * (target_height as int) * 3 == (target_height as int)
                * (row_bytes as int)) by (nonlinear_arith)
                requires
                    row_bytes == target_width * 3,
            ;
        }
        comp_finish(&mut comp);
        match comp_data_to_vec(&mut comp) {
            Ok(compressed) => Ok(compressed),
            Err(()) => Err(EncodeError::Backend),
        }
    }

    /// Resize the stored raster by the stored factor's ratio, then encode the
    /// result at the stored factor's quality.
    ///
    /// The call reads the stored state and allocates its own buffers, so it
    /// has no side effect beyond the returned value and can be repeated; a
    /// successful run always returns `spec_output`: the resampled raster's
    /// encoding, a complete JPEG stream. A raster or ratio whose target
    /// dimensions truncate to zero is rejected with `EmptyImage`, and target
    /// dimensions beyond the backend's cap with `ImageTooLarge`; the resize
    /// step itself always hands the encoder a buffer of exactly the right
    /// length.
    pub fn compress_image(&self) -> (r: Result<Vec<u8>, EncodeError>)
        requires
            self.wf(),
        ensures
            r matches Ok(v) ==> v@ == self.spec_output() && jpeg_framed(v@),
            r == Err::<Vec<u8>, EncodeError>(EncodeError::EmptyImage) <==> (self.spec_target_width()
                == 0 || self.spec_target_height() == 0),
            r == Err::<Vec<u8>, EncodeError>(EncodeError::ImageTooLarge) <==> (
            self.spec_target_width() > 0 && self.spec_target_height() > 0 && (
            self.spec_target_width() > MAX_DIMENSION || self.spec_target_height()
                > MAX_DIMENSION)),
            r != Err::<Vec<u8>, EncodeError>(EncodeError::BufferSize),
    {
        let (resized_img_data, target_width, target_height) = self.resize(
            self.factor.size_ratio(),
        );
        self.compress(resized_img_data, target_width, target_height, self.factor.quality())
    }
}

/// A scaled dimension never grows: with the ratio at most `RATIO_SCALE`
/// thousandths, `floor(dim * ratio)` is at most `dim`; and the product fits
/// well below `u64::MAX` for 32-bit dimensions.
proof fn lemma_scaled_dim_bounds(dim: int, ratio: int)
    requires
        0 <= dim <= u32::MAX,
        0 < ratio <= RATIO_SCALE,
    ensures
        0 <= dim * ratio <= u32::MAX * (RATIO_SCALE as int),
        target_dim(dim, ratio) <= dim,
        dim == 0 ==> target_dim(dim, ratio) == 0,
{
    lemma_mul_inequality(ratio, RATIO_SCALE as int, dim);
    lemma_mul_is_commutative(ratio, dim);
    lemma_mul_is_commutative(RATIO_SCALE as int, dim);
    lemma_mul_inequality(dim, u32::MAX as int, RATIO_SCALE as int);
    lemma_div_is_ordered(dim * ratio, dim * (RATIO_SCALE as int), RATIO_SCALE as int);
    lemma_div_multiples_vanish(dim, RATIO_SCALE as int);
    assert(dim * ratio >= 0) by (nonlinear_arith)
        requires
            dim >= 0,
            ratio > 0,
    ;
}

/// Law: resizing with the identity ratio preserves a dimension exactly:
/// `floor(dim * RATIO_SCALE / RATIO_SCALE)` is `dim` itself.
pub proof fn lemma_identity_ratio_dim(dim: int)
    requires
        0 <= dim,
    ensures
        target_dim(dim, RATIO_SCALE as int) == dim,
{
    lemma_mul_is_commutative(dim, RATIO_SCALE as int);
    lemma_div_multiples_vanish(dim, RATIO_SCALE as int);
}

/// Law: a dimension whose scaled product falls below one whole pixel
/// truncates to a zero target dimension — the vanishing case that `compress`
/// and `compress_image` reject with `EmptyImage` rather than slicing an
/// empty scanline range.
pub proof fn lemma_small_product_truncates(dim: int, ratio: int)
    requires
        0 <= dim,
        0 < ratio,
        dim * ratio < RATIO_SCALE,
    ensures
        target_dim(dim, ratio) == 0,
{
    assert(dim * ratio >= 0) by (nonlinear_arith)
        requires
            dim >= 0,
            ratio > 0,
    ;
    lemma_basic_div(dim * ratio, RATIO_SCALE as int);
}

/// Law: a compressor whose stored factor holds the identity ratio targets the
/// stored raster's own dimensions, so resizing leaves them unchanged.
pub proof fn lemma_identity_ratio_targets(c: &Compressor)
    requires
        c.spec_factor().spec_size_ratio() == RATIO_SCALE,
    ensures
        c.spec_target_width() == c.spec_image().spec_width(),
        c.spec_target_height() == c.spec_image().spec_height(),
{
    lemma_identity_ratio_dim(c.spec_image().spec_width() as int);
    lemma_identity_ratio_dim(c.spec_image().spec_height() as int);
}

/// Law: the compressed output is fixed by the compressor's stored raster and
/// factor alone, so two successful runs of `compress_image` on the same
/// compressor yield byte-identical buffers.
pub proof fn lemma_compress_image_deterministic(
    c: &Compressor,
    r1: Result<Vec<u8>, EncodeError>,
    r2: Result<Vec<u8>, EncodeError>,
)
    ensures
        (r1 is Ok && r1->Ok_0@ == c.spec_output() && r2 is Ok && r2->Ok_0@ == c.spec_output())
            ==> r1->Ok_0@ == r2->Ok_0@,
{
}

} // verus!
