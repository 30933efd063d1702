//! Trusted boundary to the JPEG compression backend of the `mozjpeg` crate.
//!
//! A `mozjpeg::Compress` value is a stateful compression stream: it is
//! configured, started, fed scanline bytes in row order, finished, and then
//! yields the encoded buffer. Verus sees the value as opaque, so the relevant
//! pieces of its state are given names below, and each method the library
//! calls gets a wrapper whose contract says, over those names, what the
//! backend's source shows the call to do. The wrappers are the only place
//! the backend is touched; the scanline arithmetic around them is verified.

use vstd::prelude::*;

verus! {

#[verifier::external_type_specification]
#[verifier::external_body]
pub struct ExCompress(mozjpeg::Compress);

/// The scanline bytes fed to the stream since it was started: what the
/// stream holds.
pub uninterp spec fn comp_fed(c: mozjpeg::Compress) -> Seq<u8>;

/// The stream was created for 3-component RGB input with the backend's
/// defaults, as `comp_new_rgb` builds it.
pub uninterp spec fn comp_rgb(c: mozjpeg::Compress) -> bool;

/// Automatic scan-mode optimization was selected.
pub uninterp spec fn comp_scan_auto(c: mozjpeg::Compress) -> bool;

/// Optimized scan selection is enabled, with the backend's default scan
/// script in place.
pub uninterp spec fn comp_optimize_scans(c: mozjpeg::Compress) -> bool;

/// The quality last set on the stream, in whole points.
pub uninterp spec fn comp_quality(c: mozjpeg::Compress) -> int;

/// The output width set on the stream, in pixels.
pub uninterp spec fn comp_width(c: mozjpeg::Compress) -> int;

/// The output height set on the stream, in pixels.
pub uninterp spec fn comp_height(c: mozjpeg::Compress) -> int;

/// An in-memory destination buffer is installed.
pub uninterp spec fn comp_mem_dest(c: mozjpeg::Compress) -> bool;

/// `start_compress` has run.
pub uninterp spec fn comp_started(c: mozjpeg::Compress) -> bool;

/// `finish_compress` has run.
pub uninterp spec fn comp_finished(c: mozjpeg::Compress) -> bool;

/// The encoded JPEG stream that the backend produces from the given scanline
/// bytes, dimensions and quality, under this library's fixed configuration
/// (RGB input, the scan-mode call made, optimized scans enabled with the
/// backend's default scan script intact, in-memory destination). The wrappers
/// in this module can only build streams in that configuration, under which
/// the encoding is a deterministic function of these arguments alone, far too
/// large to state, so its outcome is given this name.
pub uninterp spec fn jpeg_bytes(pixels: Seq<u8>, width: int, height: int, quality: int) -> Seq<u8>;

/// The backend caps each image dimension at this value; a larger width or
/// height makes it abort the stream.
pub const MAX_DIMENSION: usize = 65500;

/// A complete JPEG interchange stream: it opens with the two start-of-image
/// marker bytes and closes with the two end-of-image marker bytes.
pub open spec fn jpeg_framed(b: Seq<u8>) -> bool {
    &&& b.len() >= 4
    &&& b[0] == 0xff
    &&& b[1] == 0xd8
    &&& b[b.len() - 2] == 0xff
    &&& b[b.len() - 1] == 0xd9
}

/// Relies on `mozjpeg::Compress::new`: it creates a fresh, unstarted stream
/// for input in the given color space, here `JCS_RGB`, with the backend's
/// default settings.
#[verifier::external_body]
pub(crate) fn comp_new_rgb() -> (c: mozjpeg::Compress)
    ensures
        comp_rgb(c),
        !comp_started(c),
        !comp_finished(c),
        !comp_mem_dest(c),
{
    mozjpeg::Compress::new(mozjpeg::ColorSpace::JCS_RGB)
}

/// Relies on `mozjpeg::Compress::set_scan_optimization_mode`: it selects the
/// scan mode and re-applies the backend defaults, so the quality and the
/// optimized-scan switch must be set afterwards and are not claimed
/// preserved; the color space, dimensions and destination are untouched.
/// Note that re-applying the defaults also resets the just-stored mode, so
/// the selection itself leaves the backend's default scan behavior in place;
/// the call is still made, and recorded, as part of the pipeline's fixed
/// configuration.
#[verifier::external_body]
pub(crate) fn comp_set_scan_auto(c: &mut mozjpeg::Compress)
    requires
        !comp_started(*old(c)),
    ensures
        comp_scan_auto(*final(c)),
        comp_rgb(*final(c)) == comp_rgb(*old(c)),
        comp_width(*final(c)) == comp_width(*old(c)),
        comp_height(*final(c)) == comp_height(*old(c)),
        comp_mem_dest(*final(c)) == comp_mem_dest(*old(c)),
        comp_started(*final(c)) == comp_started(*old(c)),
        comp_finished(*final(c)) == comp_finished(*old(c)),
{
    c.set_scan_optimization_mode(mozjpeg::ScanMode::Auto);
}

/// Relies on `mozjpeg::Compress::set_quality`: it sets the quality used to
/// scale the quantization tables and changes nothing else.
#[verifier::external_body]
pub(crate) fn comp_set_quality(c: &mut mozjpeg::Compress, quality: u16)
    requires
        1 <= quality <= 100,
        !comp_started(*old(c)),
    ensures
        comp_quality(*final(c)) == quality as int,
        comp_rgb(*final(c)) == comp_rgb(*old(c)),
        comp_scan_auto(*final(c)) == comp_scan_auto(*old(c)),
        comp_optimize_scans(*final(c)) == comp_optimize_scans(*old(c)),
        comp_width(*final(c)) == comp_width(*old(c)),
        comp_height(*final(c)) == comp_height(*old(c)),
        comp_mem_dest(*final(c)) == comp_mem_dest(*old(c)),
        comp_started(*final(c)) == comp_started(*old(c)),
        comp_finished(*final(c)) == comp_finished(*old(c)),
{
    c.set_quality(quality.into());
}

/// Relies on `mozjpeg::Compress::set_size`: it stores the output dimensions
/// and changes nothing else. The backend holds dimensions in 32 bits and
/// rejects anything above `MAX_DIMENSION` when the stream starts, so larger
/// values are left out here.
#[verifier::external_body]
pub(crate) fn comp_set_size(c: &mut mozjpeg::Compress, width: usize, height: usize)
    requires
        width <= MAX_DIMENSION,
        height <= MAX_DIMENSION,
        !comp_started(*old(c)),
    ensures
        comp_width(*final(c)) == width as int,
        comp_height(*final(c)) == height as int,
        comp_rgb(*final(c)) == comp_rgb(*old(c)),
        comp_scan_auto(*final(c)) == comp_scan_auto(*old(c)),
        comp_optimize_scans(*final(c)) == comp_optimize_scans(*old(c)),
        comp_quality(*final(c)) == comp_quality(*old(c)),
        comp_mem_dest(*final(c)) == comp_mem_dest(*old(c)),
        comp_started(*final(c)) == comp_started(*old(c)),
        comp_finished(*final(c)) == comp_finished(*old(c)),
{
    c.set_size(width, height);
}

/// Relies on `mozjpeg::Compress::set_mem_dest`: it installs an in-memory
/// destination buffer for the encoded stream and changes nothing else.
#[verifier::external_body]
pub(crate) fn comp_set_mem_dest(c: &mut mozjpeg::Compress)
    requires
        !comp_started(*old(c)),
    ensures
        comp_mem_dest(*final(c)),
        comp_rgb(*final(c)) == comp_rgb(*old(c)),
        comp_scan_auto(*final(c)) == comp_scan_auto(*old(c)),
        comp_optimize_scans(*final(c)) == comp_optimize_scans(*old(c)),
        comp_quality(*final(c)) == comp_quality(*old(c)),
        comp_width(*final(c)) == comp_width(*old(c)),
        comp_height(*final(c)) == comp_height(*old(c)),
        comp_started(*final(c)) == comp_started(*old(c)),
        comp_finished(*final(c)) == comp_finished(*old(c)),
{
    c.set_mem_dest();
}

/// Relies on `mozjpeg::Compress::set_optimize_scans`, called with `true`: it
/// enables optimized scan selection and changes nothing else. The off switch
/// is deliberately not offered: turning the flag off also discards the
/// backend's installed scan script, a piece of state the names here do not
/// track, and with the off switch unreachable every stream this module can
/// build keeps the backend's default script, so the encoded bytes are fixed
/// by the named state alone.
#[verifier::external_body]
pub(crate) fn comp_enable_optimize_scans(c: &mut mozjpeg::Compress)
    requires
        !comp_started(*old(c)),
    ensures
        comp_optimize_scans(*final(c)),
        comp_rgb(*final(c)) == comp_rgb(*old(c)),
        comp_scan_auto(*final(c)) == comp_scan_auto(*old(c)),
        comp_quality(*final(c)) == comp_quality(*old(c)),
        comp_width(*final(c)) == comp_width(*old(c)),
        comp_height(*final(c)) == comp_height(*old(c)),
        comp_mem_dest(*final(c)) == comp_mem_dest(*old(c)),
        comp_started(*final(c)) == comp_started(*old(c)),
        comp_finished(*final(c)) == comp_finished(*old(c)),
{
    c.set_optimize_scans(true);
}

/// Relies on `mozjpeg::Compress::start_compress`: it begins the stream, after
/// which scanlines can be written. The backend aborts on a zero or oversized
/// dimension or a missing destination, so those states are left out; for RGB
/// input under the defaults its sampling-factor checks hold.
#[verifier::external_body]
pub(crate) fn comp_start(c: &mut mozjpeg::Compress)
    requires
        comp_rgb(*old(c)),
        comp_mem_dest(*old(c)),
        0 < comp_width(*old(c)) <= MAX_DIMENSION,
        0 < comp_height(*old(c)) <= MAX_DIMENSION,
        !comp_started(*old(c)),
        !comp_finished(*old(c)),
    ensures
        comp_started(*final(c)),
        !comp_finished(*final(c)),
        comp_fed(*final(c)) == Seq::<u8>::empty(),
        comp_rgb(*final(c)) == comp_rgb(*old(c)),
        comp_scan_auto(*final(c)) == comp_scan_auto(*old(c)),
        comp_optimize_scans(*final(c)) == comp_optimize_scans(*old(c)),
        comp_quality(*final(c)) == comp_quality(*old(c)),
        comp_width(*final(c)) == comp_width(*old(c)),
        comp_height(*final(c)) == comp_height(*old(c)),
        comp_mem_dest(*final(c)) == comp_mem_dest(*old(c)),
{
    c.start_compress();
}

/// Relies on `mozjpeg::Compress::write_scanlines`: it appends whole rows of
/// RGB bytes to the started stream, in order, and returns whether all of them
/// were taken. The backend slices the input into rows of `width * 3` bytes
/// and must not be handed a partial row or rows beyond the image height.
#[verifier::external_body]
pub(crate) fn comp_write_rows(c: &mut mozjpeg::Compress, rows: &[u8]) -> (r: bool)
    requires
        comp_rgb(*old(c)),
        comp_started(*old(c)),
        !comp_finished(*old(c)),
        comp_width(*old(c)) > 0,
        rows@.len() as int % (comp_width(*old(c)) * 3) == 0,
        comp_fed(*old(c)).len() + rows@.len() <= comp_width(*old(c)) * comp_height(*old(c)) * 3,
    ensures
        r ==> comp_fed(*final(c)) == comp_fed(*old(c)) + rows@,
        comp_rgb(*final(c)) == comp_rgb(*old(c)),
        comp_scan_auto(*final(c)) == comp_scan_auto(*old(c)),
        comp_optimize_scans(*final(c)) == comp_optimize_scans(*old(c)),
        comp_quality(*final(c)) == comp_quality(*old(c)),
        comp_width(*final(c)) == comp_width(*old(c)),
        comp_height(*final(c)) == comp_height(*old(c)),
        comp_mem_dest(*final(c)) == comp_mem_dest(*old(c)),
        comp_started(*final(c)) == comp_started(*old(c)),
        comp_finished(*final(c)) == comp_finished(*old(c)),
{
    c.write_scanlines(rows)
}

/// Relies on `mozjpeg::Compress::finish_compress`: it flushes the stream and
/// writes the trailer into the destination buffer. The backend aborts unless
/// every scanline of the declared image has been written, so incomplete
/// streams are left out.
#[verifier::external_body]
pub(crate) fn comp_finish(c: &mut mozjpeg::Compress)
    requires
        comp_started(*old(c)),
        !comp_finished(*old(c)),
        comp_mem_dest(*old(c)),
        comp_fed(*old(c)).len() == comp_width(*old(c)) * comp_height(*old(c)) * 3,
    ensures
        comp_finished(*final(c)),
        comp_fed(*final(c)) == comp_fed(*old(c)),
        comp_rgb(*final(c)) == comp_rgb(*old(c)),
        comp_scan_auto(*final(c)) == comp_scan_auto(*old(c)),
        comp_optimize_scans(*final(c)) == comp_optimize_scans(*old(c)),
        comp_quality(*final(c)) == comp_quality(*old(c)),
        comp_width(*final(c)) == comp_width(*old(c)),
        comp_height(*final(c)) == comp_height(*old(c)),
        comp_mem_dest(*final(c)) == comp_mem_dest(*old(c)),
        comp_started(*final(c)) == comp_started(*old(c)),
{
    c.finish_compress();
}

/// Relies on `mozjpeg::Compress::data_to_vec`: after a finished in-memory
/// stream it hands out the encoded bytes, or reports failure if the buffer
/// is absent or cannot be copied. On success the bytes are the backend's
/// encoding of exactly the fed scanlines under the set dimensions and
/// quality — named `jpeg_bytes` — and form a complete JPEG interchange
/// stream, which the backend opens with the start-of-image marker and closes
/// with the end-of-image marker.
#[verifier::external_body]
pub(crate) fn comp_data_to_vec(c: &mut mozjpeg::Compress) -> (r: Result<Vec<u8>, ()>)
    requires
        comp_rgb(*old(c)),
        comp_scan_auto(*old(c)),
        comp_optimize_scans(*old(c)),
        comp_mem_dest(*old(c)),
        comp_started(*old(c)),
        comp_finished(*old(c)),
        1 <= comp_quality(*old(c)) <= 100,
        0 < comp_width(*old(c)) <= MAX_DIMENSION,
        0 < comp_height(*old(c)) <= MAX_DIMENSION,
        comp_fed(*old(c)).len() == comp_width(*old(c)) * comp_height(*old(c)) * 3,
    ensures
        r matches Ok(v) ==> v@ == jpeg_bytes(
            comp_fed(*old(c)),
            comp_width(*old(c)),
            comp_height(*old(c)),
            comp_quality(*old(c)),
        ),
        r matches Ok(v) ==> jpeg_framed(v@),
{
    c.data_to_vec()
}

} // verus!
