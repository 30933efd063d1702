//! Validated compression parameters: quality and resize ratio.

use vstd::prelude::*;

verus! {

/// Scale of the fixed-point size ratio: a ratio of `RATIO_SCALE` thousandths
/// is the identity ratio 1.0.
pub const RATIO_SCALE: u32 = 1000;

/// Returned when a `Factor` is constructed from out-of-range values.
#[derive(Debug, Clone, Copy, PartialEq, Eq, Structural)]
pub enum ConfigurationError {
    /// The quality was zero or above 100 points.
    QualityOutOfRange,
    /// The size ratio was zero or above `RATIO_SCALE` thousandths.
    SizeRatioOutOfRange,
}

/// An immutable, validated pair of tuning parameters.
///
/// `quality` is the JPEG quality in whole points, always in `1..=100`;
/// `size_ratio` is the linear scale factor applied to both dimensions,
/// in thousandths, always in `1..=RATIO_SCALE`. Both ranges are established
/// at construction and the fields are never mutated afterwards: a `Factor`
/// can only be replaced wholesale.
#[derive(Debug, Clone, Copy, PartialEq, Eq, Structural)]
pub struct Factor {
    quality: u16,
    size_ratio: u32,
}

impl Factor {
    /// The stored quality, in whole JPEG quality points.
    pub closed spec fn spec_quality(self) -> u16 {
        self.quality
    }

    /// The stored size ratio, in thousandths.
    pub closed spec fn spec_size_ratio(self) -> u32 {
        self.size_ratio
    }

    /// Both parameters lie in their documented ranges.
    pub open spec fn wf(self) -> bool {
        &&& 0 < self.spec_quality() <= 100
        &&& 0 < self.spec_size_ratio() <= RATIO_SCALE
    }

    /// Create a new `Factor`.
    ///
    /// `quality` must be in `(0, 100]` points and `size_ratio` in
    /// `(0, RATIO_SCALE]` thousandths; any other value is rejected, quality
    /// being checked first.
    pub fn new(quality: u16, size_ratio: u32) -> (r: Result<Factor, ConfigurationError>)
        ensures
            r is Ok <==> (0 < quality <= 100 && 0 < size_ratio <= RATIO_SCALE),
            r matches Ok(f) ==> f.spec_quality() == quality && f.spec_size_ratio() == size_ratio
                && f.wf(),
            r == Err::<Factor, ConfigurationError>(ConfigurationError::QualityOutOfRange)
                <==> (quality == 0 || quality > 100),
            r == Err::<Factor, ConfigurationError>(ConfigurationError::SizeRatioOutOfRange)
                <==> (0 < quality <= 100 && (size_ratio == 0 || size_ratio > RATIO_SCALE)),
    {
        if quality == 0 || quality > 100 {
            Err(ConfigurationError::QualityOutOfRange)
        } else if size_ratio == 0 || size_ratio > RATIO_SCALE {
            Err(ConfigurationError::SizeRatioOutOfRange)
        } else {
            Ok(Factor { quality, size_ratio })
        }
    }

    /// Getter for `quality` of `Factor`, in whole points.
    pub fn quality(&self) -> (r: u16)
        ensures
            r == self.spec_quality(),
    {
        self.quality
    }

    /// Getter for `size_ratio` of `Factor`, in thousandths.
    pub fn size_ratio(&self) -> (r: u32)
        ensures
            r == self.spec_size_ratio(),
    {
        self.size_ratio
    }
}

impl Default for Factor {
    /// The documented balance point: quality 80 points, size ratio 0.8
    /// (800 thousandths).
    fn default() -> (r: Self)
        ensures
            r.spec_quality() == 80,
            r.spec_size_ratio() == 800,
            r.wf(),
    {
        Factor { quality: 80, size_ratio: 800 }
    }
}

} // verus!
