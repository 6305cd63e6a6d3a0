//! A deterministic stand-in for the temperature sensor: a sawtooth ramp that
//! runs past both ends of the safe band and reports samples beyond a limit
//! as the limit itself or as its nearest neighbour outside the band.
use vstd::prelude::*;

use crate::calibration::{LOWER_LIMIT, MICROS_PER_DEGREE, UPPER_LIMIT};

verus! {

/// Largest magnitude, in micro-degrees, of any bound or step of a source.
pub const MAX_MAGNITUDE: i64 = 1_000_000_000_000_000;

/// Distance from a limit, in micro-degrees, of the off-limit edge sample:
/// the resolution of a reading.
pub const EDGE_NUDGE: i64 = 1;

/// A synthetic temperature source; all values are in micro-degrees.
pub struct SyntheticSource {
    /// The next value of the ramp.
    pub cursor: i64,
    /// Where the ramp starts again after reaching `max`.
    pub min: i64,
    /// Once the ramp is at or above this value it wraps to `min`.
    pub max: i64,
    /// The lower safety limit.
    pub lower: i64,
    /// The upper safety limit.
    pub upper: i64,
    /// Increment of the ramp per call.
    pub step: i64,
    /// Settling delay to apply after each read, in milliseconds.
    pub delay_ms: u32,
}

/// Whole degrees in the magnitude of `t` (micro-degrees), truncated.
pub open spec fn whole_degrees(t: int) -> int {
    (if t < 0 { -t } else { t }) / (MICROS_PER_DEGREE as int)
}

/// The value reported for ramp position `t`: below `lower` it is `lower` when
/// the truncated degrees of `t` are even and just below `lower` when odd;
/// above `upper` likewise with `upper` and just above it; otherwise `t`.
pub open spec fn edge_sample(t: int, lower: int, upper: int) -> int {
    if t < lower {
        if whole_degrees(t) % 2 == 0 { lower } else { lower - EDGE_NUDGE }
    } else if t > upper {
        if whole_degrees(t) % 2 == 0 { upper } else { upper + EDGE_NUDGE }
    } else {
        t
    }
}

impl SyntheticSource {
    /// Bounds that keep every value of the ramp representable, and a cursor
    /// on the ramp.
    pub open spec fn wf(self) -> bool {
        &&& 0 < self.step <= MAX_MAGNITUDE
        &&& -MAX_MAGNITUDE <= self.min <= self.max <= MAX_MAGNITUDE
        &&& -MAX_MAGNITUDE <= self.lower <= self.upper <= MAX_MAGNITUDE
        &&& self.min <= self.cursor < self.max + self.step
    }

    /// The ramp position after `t`: one step up, or back to `min` once at or
    /// above `max`.
    pub open spec fn advance(self, t: int) -> int {
        if t >= self.max { self.min as int } else { t + self.step }
    }

    /// The ramp position `n` calls after position `start`.
    pub open spec fn ramp(self, start: int, n: nat) -> int
        decreases n,
    {
        if n == 0 {
            start
        } else {
            self.advance(self.ramp(start, (n - 1) as nat))
        }
    }

    /// A source for the given bounds, starting at `min`; `None` when a bound
    /// or the step is out of range, the step is not positive, or a range is
    /// empty.
    pub fn new(min: i64, max: i64, lower: i64, upper: i64, step: i64, delay_ms: u32) -> (r:
        Option<SyntheticSource>)
        ensures
            r is Some <==> (0 < step <= MAX_MAGNITUDE && -MAX_MAGNITUDE <= min <= max
                <= MAX_MAGNITUDE && -MAX_MAGNITUDE <= lower <= upper <= MAX_MAGNITUDE),
            r matches Some(s) ==> (s.wf() && s.cursor == min && s.min == min && s.max == max
                && s.lower == lower && s.upper == upper && s.step == step && s.delay_ms
                == delay_ms),
    {
        if 0 < step && step <= MAX_MAGNITUDE && -MAX_MAGNITUDE <= min && min <= max && max
            <= MAX_MAGNITUDE && -MAX_MAGNITUDE <= lower && lower <= upper && upper
            <= MAX_MAGNITUDE {
            Some(SyntheticSource { cursor: min, min, max, lower, upper, step, delay_ms })
        } else {
            None
        }
    }

    /// The source that exercises the safe band: a ramp from ten degrees
    /// below the band to ten degrees above it, in steps of a tenth of a
    /// degree, with a settling delay of 5 ms.
    pub fn standard() -> (r: SyntheticSource)
        ensures
            r.wf(),
            r.cursor == r.min,
            r.min == -LOWER_LIMIT - 10 * MICROS_PER_DEGREE,
            r.max == UPPER_LIMIT + 10 * MICROS_PER_DEGREE,
            r.lower == -LOWER_LIMIT,
            r.upper == UPPER_LIMIT,
            r.step == MICROS_PER_DEGREE / 10,
            r.delay_ms == 5,
    {
        SyntheticSource {
            cursor: -LOWER_LIMIT - 10 * MICROS_PER_DEGREE,
            min: -LOWER_LIMIT - 10 * MICROS_PER_DEGREE,
            max: UPPER_LIMIT + 10 * MICROS_PER_DEGREE,
            lower: -LOWER_LIMIT,
            upper: UPPER_LIMIT,
            step: MICROS_PER_DEGREE / 10,
            delay_ms: 5,
        }
    }

    /// Takes the next sample: moves the ramp on and reports the position it
    /// held, replaced at the edges as `edge_sample` says. Never `None`.
    pub fn read(&mut self) -> (r: Option<i64>)
        requires
            old(self).wf(),
        ensures
            final(self).wf(),
            final(self).cursor == old(self).advance(old(self).cursor as int),
            final(self).min == old(self).min,
            final(self).max == old(self).max,
            final(self).lower == old(self).lower,
            final(self).upper == old(self).upper,
            final(self).step == old(self).step,
            final(self).delay_ms == old(self).delay_ms,
            r == Some(
                edge_sample(old(self).cursor as int, old(self).lower as int, old(self).upper as int)
                    as i64,
            ),
    {
        let val = self.cursor;
        self.cursor = if val >= self.max {
            self.min
        } else {
            val + self.step
        };
        let magnitude: u64 = if val < 0 {
            (-val) as u64
        } else {
            val as u64
        };
        let even: bool = (magnitude / (MICROS_PER_DEGREE as u64)) % 2 == 0;
        let sample: i64 = if val < self.lower {
            if even {
                self.lower
            } else {
                self.lower - EDGE_NUDGE
            }
        } else if val > self.upper {
            if even {
                self.upper
            } else {
                self.upper + EDGE_NUDGE
            }
        } else {
            val
        };
        Some(sample)
    }
}

} // verus!
