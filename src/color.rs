//! The piecewise-linear mapping from a temperature to three duty values.
use vstd::prelude::*;

use crate::calibration::{
    lemma_scales,
    COLOR_RANGE, CORRECTOR_BASE, CORRECTOR_FALL, GREEN_KNEE, LEVEL_SCALE, LOWER_LIMIT, MAX_DUTY,
    PIVOT, POINTS_PER_DEGREE, UPPER_LIMIT,
};

verus! {

/// A reading `t` (micro-degrees) lies in the safe band `[-LOWER_LIMIT, UPPER_LIMIT]`.
pub open spec fn in_band(t: int) -> bool {
    -LOWER_LIMIT <= t <= UPPER_LIMIT
}

/// Micro-degrees of `t` above the lower end of the band.
pub open spec fn offset(t: int) -> int {
    t + LOWER_LIMIT
}

/// The green corrector before clamping, in slope units:
/// 0.6 points per degree, less 0.02 for each degree above the knee.
pub open spec fn raw_corrector(t: int) -> int {
    CORRECTOR_BASE - CORRECTOR_FALL * (if t > GREEN_KNEE { t - GREEN_KNEE } else { 0 })
}

/// The green corrector, clamped so that it never goes negative.
pub open spec fn corrector(t: int) -> int {
    if raw_corrector(t) < 0 { 0 } else { raw_corrector(t) }
}

/// Red intensity in units of `1 / LEVEL_SCALE` of a duty step: a tent that
/// rises from the bottom of the band to the pivot and falls from there.
pub open spec fn red_level(t: int) -> int {
    if t < PIVOT {
        POINTS_PER_DEGREE * offset(t)
    } else {
        POINTS_PER_DEGREE * (UPPER_LIMIT - t)
    }
}

/// Blue intensity in units of `1 / LEVEL_SCALE`: twice the red slope up to the
/// pivot, full period from there.
pub open spec fn blue_level(t: int) -> int {
    if t < PIVOT {
        2 * POINTS_PER_DEGREE * offset(t)
    } else {
        MAX_DUTY * LEVEL_SCALE
    }
}

/// Green intensity in units of `1 / LEVEL_SCALE`: the offset times the
/// corrected slope.
pub open spec fn green_level(t: int) -> int {
    offset(t) * (POINTS_PER_DEGREE + corrector(t))
}

/// An intensity truncated to a whole duty value.
pub open spec fn duty_of(level: int) -> int {
    level / (LEVEL_SCALE as int)
}

/// Red duty value for an in-band reading `t` in micro-degrees.
pub fn red_duty(t: i64) -> (r: u16)
    requires
        in_band(t as int),
    ensures
        r == duty_of(red_level(t as int)),
{
    let span: u64 = if t < PIVOT {
        (t + LOWER_LIMIT) as u64
    } else {
        (UPPER_LIMIT - t) as u64
    };
    proof {
        lemma_scales();
    }
    let level: u64 = POINTS_PER_DEGREE * span;
    (level / LEVEL_SCALE) as u16
}

/// Blue duty value for an in-band reading `t` in micro-degrees.
pub fn blue_duty(t: i64) -> (r: u16)
    requires
        in_band(t as int),
    ensures
        r == duty_of(blue_level(t as int)),
{
    proof {
        lemma_scales();
    }
    if t < PIVOT {
        let level: u64 = 2 * POINTS_PER_DEGREE * ((t + LOWER_LIMIT) as u64);
        (level / LEVEL_SCALE) as u16
    } else {
        MAX_DUTY
    }
}

/// The clamped green corrector for an in-band reading `t`, in slope units.
pub fn green_corrector(t: i64) -> (r: u64)
    requires
        in_band(t as int),
    ensures
        r == corrector(t as int),
{
    proof {
        lemma_scales();
    }
    let excess: u64 = if t > GREEN_KNEE {
        (t - GREEN_KNEE) as u64
    } else {
        0
    };
    let fall: u64 = CORRECTOR_FALL * excess;
    if fall > CORRECTOR_BASE {
        0
    } else {
        CORRECTOR_BASE - fall
    }
}

/// Green duty value for an in-band reading `t` in micro-degrees.
pub fn green_duty(t: i64) -> (r: u16)
    requires
        in_band(t as int),
    ensures
        r == duty_of(green_level(t as int)),
{
    proof {
        lemma_scales();
    }
    let slope: u64 = POINTS_PER_DEGREE + green_corrector(t);
    let span: u64 = (t + LOWER_LIMIT) as u64;
    assert(span * slope <= 110_000_000 * 1_610_000_000) by (nonlinear_arith)
        requires
            span <= 110_000_000,
            slope <= 1_610_000_000,
    ;
    let level: u64 = span * slope;
    proof {
        lemma_green_below_full(t as int);
    }
    (level / LEVEL_SCALE) as u16
}

/// On the band, the green intensity never exceeds a full period.
pub(crate) proof fn lemma_green_below_full(t: int)
    requires
        in_band(t),
    ensures
        green_level(t) <= MAX_DUTY * LEVEL_SCALE,
        t < UPPER_LIMIT ==> green_level(t) < MAX_DUTY * LEVEL_SCALE,
{
    lemma_scales();
    let d = offset(t);
    if t > GREEN_KNEE {
        assert(corrector(t) == 330_000_000 - 11 * (d - 80_000_000));
        assert(140_800_000_000_000_000 - d * (2_490_000_000 - 11 * d) == (110_000_000 - d) * (
        1_280_000_000 - 11 * d)) by (nonlinear_arith);
        assert((110_000_000 - d) * (1_280_000_000 - 11 * d) >= 0) by (nonlinear_arith)
            requires
                d <= 110_000_000,
        ;
        assert(d < 110_000_000 ==> (110_000_000 - d) * (1_280_000_000 - 11 * d) > 0)
            by (nonlinear_arith);
    } else {
        assert(d * 1_610_000_000 <= 80_000_000 * 1_610_000_000) by (nonlinear_arith)
            requires
                0 <= d <= 80_000_000,
        ;
    }
}

} // verus!
