use image_compressor::compressor::{Compressor, EncodeError};
use image_compressor::factor::Factor;
use image_compressor::raster::Raster;

fn solid_raster(width: u32, height: u32, rgb: [u8; 3]) -> Raster {
    let mut pixels = Vec::new();
    for _ in 0..(width as usize * height as usize) {
        pixels.extend_from_slice(&rgb);
    }
    Raster::new(width, height, pixels).unwrap()
}

fn gradient_raster(width: u32, height: u32) -> Raster {
    let mut pixels = Vec::new();
    for y in 0..height as usize {
        for x in 0..width as usize {
            pixels.push((x * 7 % 256) as u8);
            pixels.push((y * 13 % 256) as u8);
            pixels.push(((x + y) * 31 % 256) as u8);
        }
    }
    Raster::new(width, height, pixels).unwrap()
}

#[test]
fn resize_dims_are_floored() {
    let comp = Compressor::new(gradient_raster(10, 7));
    let (buf, w, h) = comp.resize(300);
    assert_eq!(w, 3);
    assert_eq!(h, 2);
    assert_eq!(buf.len(), 3 * 2 * 3);
}

#[test]
fn resize_identity_ratio_preserves_raster() {
    let raster = gradient_raster(4, 3);
    let original = raster.pixels().clone();
    let comp = Compressor::new(raster);
    let (buf, w, h) = comp.resize(1000);
    assert_eq!(w, 4);
    assert_eq!(h, 3);
    assert_eq!(buf, original);
}

#[test]
fn resize_one_pixel_by_half_is_empty() {
    let comp = Compressor::new(solid_raster(1, 1, [10, 20, 30]));
    let (buf, w, h) = comp.resize(500);
    assert_eq!(w, 0);
    assert_eq!(h, 0);
    assert!(buf.is_empty());
}

#[test]
fn resize_changes_resampled_pixels() {
    let raster = Raster::new(
        2,
        2,
        vec![0, 0, 0, 255, 255, 255, 255, 255, 255, 255, 255, 255],
    )
    .unwrap();
    let comp = Compressor::new(raster);
    let (buf, w, h) = comp.resize(500);
    assert_eq!((w, h), (1, 1));
    assert_eq!(buf.len(), 3);
    assert_ne!(buf, vec![0, 0, 0]);
}

#[test]
fn compress_image_output_is_framed_jpeg() {
    let mut comp = Compressor::new(solid_raster(100, 100, [200, 30, 60]));
    comp.set_factor(Factor::new(80, 500).unwrap());
    let bytes = comp.compress_image().unwrap();
    assert!(!bytes.is_empty());
    assert_eq!(&bytes[..2], &[0xff, 0xd8]);
    assert_eq!(&bytes[bytes.len() - 2..], &[0xff, 0xd9]);
}

#[test]
fn compress_image_twice_is_byte_identical() {
    let mut comp = Compressor::new(gradient_raster(60, 40));
    comp.set_factor(Factor::new(75, 700).unwrap());
    let first = comp.compress_image().unwrap();
    let second = comp.compress_image().unwrap();
    assert_eq!(first, second);
}

#[test]
fn higher_quality_is_not_smaller() {
    let raster = gradient_raster(64, 64);
    let pixels = raster.pixels().clone();
    let mut comp = Compressor::new(raster);
    comp.set_factor(Factor::new(30, 1000).unwrap());
    let small = comp.compress_image().unwrap();
    let mut comp_high = Compressor::new(Raster::new(64, 64, pixels).unwrap());
    comp_high.set_factor(Factor::new(95, 1000).unwrap());
    let large = comp_high.compress_image().unwrap();
    assert!(large.len() >= small.len());
}

#[test]
fn compress_image_half_solid_roundtrip() {
    let color = [90u8, 140, 190];
    let mut comp = Compressor::new(solid_raster(100, 100, color));
    comp.set_factor(Factor::new(80, 500).unwrap());
    let bytes = comp.compress_image().unwrap();
    assert!(!bytes.is_empty());

    let decoded = image::load_from_memory(&bytes).unwrap().to_rgb8();
    assert_eq!(decoded.dimensions(), (50, 50));
    for pixel in decoded.pixels() {
        for channel in 0..3 {
            let got = pixel.0[channel] as i32;
            let want = color[channel] as i32;
            assert!((got - want).abs() <= 6, "channel {channel}: {got} vs {want}");
        }
    }
}

#[test]
fn compress_image_rejects_vanishing_raster() {
    let mut comp = Compressor::new(solid_raster(1, 1, [1, 2, 3]));
    comp.set_factor(Factor::new(80, 500).unwrap());
    assert_eq!(comp.compress_image(), Err(EncodeError::EmptyImage));
}

#[test]
fn compress_image_rejects_empty_raster() {
    let comp = Compressor::new(Raster::new(0, 0, Vec::new()).unwrap());
    assert_eq!(comp.compress_image(), Err(EncodeError::EmptyImage));
}

#[test]
fn compress_image_rejects_oversized_dimension() {
    let mut comp = Compressor::new(solid_raster(65501, 1, [5, 5, 5]));
    comp.set_factor(Factor::new(80, 1000).unwrap());
    assert_eq!(comp.compress_image(), Err(EncodeError::ImageTooLarge));
}

#[test]
fn compress_rejects_mismatched_buffer() {
    let comp = Compressor::new(solid_raster(2, 2, [0, 0, 0]));
    assert_eq!(comp.compress(vec![0u8; 10], 5, 5, 80), Err(EncodeError::BufferSize));
}

#[test]
fn compress_rejects_zero_height() {
    let comp = Compressor::new(solid_raster(2, 2, [0, 0, 0]));
    assert_eq!(comp.compress(Vec::new(), 5, 0, 80), Err(EncodeError::EmptyImage));
}

#[test]
fn set_factor_governs_target_dimensions() {
    let mut comp = Compressor::new(solid_raster(100, 100, [10, 60, 110]));
    let bytes = comp.compress_image().unwrap();
    let decoded = image::load_from_memory(&bytes).unwrap().to_rgb8();
    assert_eq!(decoded.dimensions(), (80, 80));

    comp.set_factor(Factor::new(80, 250).unwrap());
    let bytes = comp.compress_image().unwrap();
    let decoded = image::load_from_memory(&bytes).unwrap().to_rgb8();
    assert_eq!(decoded.dimensions(), (25, 25));
}
