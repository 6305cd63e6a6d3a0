//! Readings of the on-chip temperature sensor, which counts in quarter degrees.
use vstd::prelude::*;

use crate::calibration::MICROS_PER_DEGREE;

verus! {

/// The reading, in micro-degrees, of a raw sensor value of `q` quarter degrees.
pub fn from_quarter_degrees(q: i32) -> (r: i64)
    ensures
        r == q * (MICROS_PER_DEGREE / 4),
{
    (q as i64) * (MICROS_PER_DEGREE / 4)
}

} // verus!
