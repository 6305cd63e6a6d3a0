//! Build-time constants of the temperature band and of the color mapping.
//!
//! Temperatures are fixed-point values in micro-degrees Celsius.
use vstd::prelude::*;

verus! {

/// Micro-degrees in one degree.
pub const MICROS_PER_DEGREE: i64 = 1_000_000;

/// Magnitude of the lower end of the safe band: readings below `-LOWER_LIMIT` raise the alarm.
pub const LOWER_LIMIT: i64 = 50_000_000;

/// Upper end of the safe band: readings above it raise the alarm.
pub const UPPER_LIMIT: i64 = 60_000_000;

/// Temperature at which red peaks and blue saturates.
pub const PIVOT: i64 = 5_000_000;

/// Temperature above which the green slope starts to flatten.
pub const GREEN_KNEE: i64 = 30_000_000;

/// Number of discrete color positions spread over the band.
pub const COLOR_RANGE: u64 = 256;

/// Width of the band in whole degrees.
pub const BAND_WIDTH: u64 = 110;

/// Full-period duty value of a PWM channel ("always on").
pub const MAX_DUTY: u16 = 256;

/// Slopes are counted in units of `1 / SLOPE_SCALE` color points per degree.
///
/// It is a multiple of `BAND_WIDTH`, of 5 and of 50 times `MICROS_PER_DEGREE`,
/// so that every slope of the mapping is a whole number of units.
pub const SLOPE_SCALE: u64 = 550_000_000;

/// Color points per degree, `COLOR_RANGE / BAND_WIDTH`, in slope units.
pub const POINTS_PER_DEGREE: u64 = COLOR_RANGE * SLOPE_SCALE / BAND_WIDTH;

/// The green corrector at or below the knee (0.6 points per degree), in slope units.
pub const CORRECTOR_BASE: u64 = 3 * SLOPE_SCALE / 5;

/// Drop of the green corrector per micro-degree above the knee
/// (0.02 points per degree for each degree), in slope units.
pub const CORRECTOR_FALL: u64 = SLOPE_SCALE / 50 / 1_000_000;

/// Intensities are counted in units of `1 / LEVEL_SCALE` of a duty step:
/// a slope in slope units times an offset in micro-degrees.
pub const LEVEL_SCALE: u64 = SLOPE_SCALE * 1_000_000;

/// The derived constants, as numbers.
pub proof fn lemma_scales()
    ensures
        POINTS_PER_DEGREE == 1_280_000_000,
        CORRECTOR_BASE == 330_000_000,
        CORRECTOR_FALL == 11,
        LEVEL_SCALE == 550_000_000_000_000,
{
}

} // verus!
