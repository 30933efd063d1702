use image_compressor::factor::{ConfigurationError, Factor, RATIO_SCALE};
use image_compressor::raster::Raster;

#[test]
fn factor_new_returns_exact_values() {
    let f = Factor::new(80, 800).unwrap();
    assert_eq!(f.quality(), 80);
    assert_eq!(f.size_ratio(), 800);
}

#[test]
fn factor_new_accepts_range_boundaries() {
    let low = Factor::new(1, 1).unwrap();
    assert_eq!(low.quality(), 1);
    assert_eq!(low.size_ratio(), 1);
    let high = Factor::new(100, RATIO_SCALE).unwrap();
    assert_eq!(high.quality(), 100);
    assert_eq!(high.size_ratio(), RATIO_SCALE);
}

#[test]
fn factor_new_rejects_zero_quality() {
    assert_eq!(Factor::new(0, 800), Err(ConfigurationError::QualityOutOfRange));
}

#[test]
fn factor_new_rejects_quality_above_100() {
    assert_eq!(Factor::new(101, 800), Err(ConfigurationError::QualityOutOfRange));
}

#[test]
fn factor_new_rejects_zero_ratio() {
    assert_eq!(Factor::new(80, 0), Err(ConfigurationError::SizeRatioOutOfRange));
}

#[test]
fn factor_new_rejects_ratio_above_scale() {
    assert_eq!(Factor::new(80, RATIO_SCALE + 1), Err(ConfigurationError::SizeRatioOutOfRange));
}

#[test]
fn factor_default_is_the_documented_balance_point() {
    let f = Factor::default();
    assert_eq!(f.quality(), 80);
    assert_eq!(f.size_ratio(), 800);
}

#[test]
fn raster_new_accepts_exact_buffer() {
    let r = Raster::new(2, 2, vec![7u8; 12]).unwrap();
    assert_eq!(r.width(), 2);
    assert_eq!(r.height(), 2);
    assert_eq!(r.pixels().len(), 12);
}

#[test]
fn raster_new_rejects_short_buffer() {
    assert!(Raster::new(2, 2, vec![7u8; 11]).is_none());
}

#[test]
fn raster_new_rejects_long_buffer() {
    assert!(Raster::new(2, 2, vec![7u8; 13]).is_none());
}

#[test]
fn raster_new_accepts_empty_raster() {
    let r = Raster::new(0, 5, Vec::new()).unwrap();
    assert_eq!(r.width(), 0);
    assert_eq!(r.height(), 5);
}
