//! Properties of the color mapping, the alarm rule and the synthetic source.
use vstd::prelude::*;

use vstd::arithmetic::div_mod::lemma_div_is_ordered;

use crate::calibration::{
    lemma_scales, LEVEL_SCALE, LOWER_LIMIT, MAX_DUTY, MICROS_PER_DEGREE, PIVOT, UPPER_LIMIT,
};
use crate::color::{blue_level, duty_of, green_level, in_band, raw_corrector, red_level};
use crate::control::{tick, Channel, Duties};
use crate::synthetic::{edge_sample, SyntheticSource, EDGE_NUDGE};

verus! {

/// Over the band short of its upper end, red and green stay below a full
/// period and blue reaches it at most; the green corrector is never negative
/// there, so its clamp never acts.
pub proof fn lemma_duties_in_range(t: int)
    requires
        -LOWER_LIMIT <= t < UPPER_LIMIT,
    ensures
        0 <= duty_of(red_level(t)) < MAX_DUTY,
        0 <= duty_of(green_level(t)) < MAX_DUTY,
        0 <= duty_of(blue_level(t)) <= MAX_DUTY,
        raw_corrector(t) >= 0,
{
    lemma_scales();
    crate::color::lemma_green_below_full(t);
    assert(green_level(t) >= 0) by (nonlinear_arith)
        requires
            green_level(t) == (t + LOWER_LIMIT) * (1_280_000_000 + crate::color::corrector(t)),
            t + LOWER_LIMIT >= 0,
            crate::color::corrector(t) >= 0,
    ;
}

/// Red rises strictly from the bottom of the band to the pivot, and so does
/// its duty, weakly.
pub proof fn lemma_red_rises(s: int, t: int)
    requires
        -LOWER_LIMIT <= s < t < PIVOT,
    ensures
        red_level(s) < red_level(t),
        duty_of(red_level(s)) <= duty_of(red_level(t)),
{
    lemma_scales();
    lemma_div_is_ordered(red_level(s), red_level(t), LEVEL_SCALE as int);
}

/// Red falls strictly from the pivot to the top of the band, and so does its
/// duty, weakly.
pub proof fn lemma_red_falls(s: int, t: int)
    requires
        PIVOT <= s < t < UPPER_LIMIT,
    ensures
        red_level(s) > red_level(t),
        duty_of(red_level(s)) >= duty_of(red_level(t)),
{
    lemma_scales();
    lemma_div_is_ordered(red_level(t), red_level(s), LEVEL_SCALE as int);
}

/// The two sides of the red tent meet at the pivot: the rising formula
/// reaches there the value of the falling one, and the duties just below and
/// at the pivot differ by at most one.
pub proof fn lemma_red_meets_at_pivot()
    ensures
        red_level(PIVOT as int) == crate::calibration::POINTS_PER_DEGREE * (PIVOT + LOWER_LIMIT),
        0 <= duty_of(red_level(PIVOT as int)) - duty_of(red_level(PIVOT - 1)) <= 1,
{
    lemma_scales();
}

/// Blue rises strictly from the bottom of the band to the pivot, and so does
/// its duty, weakly.
pub proof fn lemma_blue_rises(s: int, t: int)
    requires
        -LOWER_LIMIT <= s < t < PIVOT,
    ensures
        blue_level(s) < blue_level(t),
        duty_of(blue_level(s)) <= duty_of(blue_level(t)),
{
    lemma_scales();
    assert(blue_level(s) == 2_560_000_000 * (s + LOWER_LIMIT));
    assert(blue_level(t) == 2_560_000_000 * (t + LOWER_LIMIT));
    lemma_div_is_ordered(blue_level(s), blue_level(t), LEVEL_SCALE as int);
}

/// From the pivot to the top of the band blue stays at a full period.
pub proof fn lemma_blue_saturates(t: int)
    requires
        PIVOT <= t < UPPER_LIMIT,
    ensures
        duty_of(blue_level(t)) == MAX_DUTY,
{
    lemma_scales();
}

/// A reading outside the band raises every lit channel to a full period and
/// leaves every dark channel dark; a second such reading changes nothing.
pub proof fn lemma_alarm_idempotent(current: Duties, t: i64, u: i64)
    requires
        !in_band(t as int),
        !in_band(u as int),
    ensures
        tick(current, Some(t)) matches Some(next) && (forall|ch: Channel|
            #![trigger next.duty(ch)]
            (current.duty(ch) != 0 ==> next.duty(ch) == MAX_DUTY) && (current.duty(ch) == 0
                ==> next.duty(ch) == 0)) && tick(next, Some(u)) == Some(next),
{
}

/// Starting at `min`, the ramp climbs by one step per call as long as it has
/// stayed below `max`.
pub proof fn lemma_ramp_climbs(s: SyntheticSource, n: nat)
    requires
        s.wf(),
        n > 0 ==> s.min + (n - 1) * s.step < s.max,
    ensures
        s.ramp(s.min as int, n) == s.min + n * s.step,
    decreases n,
{
    if n > 0 {
        let m = (n - 1) as nat;
        assert(m > 0 ==> s.min + (m - 1) * s.step < s.min + (n - 1) * s.step) by (nonlinear_arith)
            requires
                n == m + 1,
                s.step > 0,
        ;
        lemma_ramp_climbs(s, m);
        assert(s.min + m * s.step + s.step == s.min + n * s.step) by (nonlinear_arith)
            requires
                n == m + 1,
        ;
    }
}

/// Calls compose: `a + b` calls from `start` end where `b` calls from the end
/// of the first `a` do.
pub proof fn lemma_ramp_composes(s: SyntheticSource, start: int, a: nat, b: nat)
    ensures
        s.ramp(start, a + b) == s.ramp(s.ramp(start, a), b),
    decreases b,
{
    if b > 0 {
        lemma_ramp_composes(s, start, a, (b - 1) as nat);
        assert((a + b - 1) as nat == a + (b - 1) as nat);
    }
}

/// The ramp wraps: once it has climbed from `min` to at or above `max`, after
/// `n` calls, the next call returns it to `min`, and from there the sequence
/// repeats with period `n + 1`.
pub proof fn lemma_ramp_wraps(s: SyntheticSource, n: nat, k: nat)
    requires
        s.wf(),
        s.min + n * s.step >= s.max,
        n > 0 ==> s.min + (n - 1) * s.step < s.max,
    ensures
        s.ramp(s.min as int, n + 1) == s.min,
        s.ramp(s.min as int, n + 1 + k) == s.ramp(s.min as int, k),
{
    lemma_ramp_climbs(s, n);
    lemma_ramp_composes(s, s.min as int, n + 1, k);
}

/// Below the lower limit (and at or below zero) samples one degree apart are
/// reported differently: one as the limit, the other just below it.
pub proof fn lemma_low_edge_alternates(t: int, lower: int, upper: int)
    requires
        t + MICROS_PER_DEGREE < lower,
        t + MICROS_PER_DEGREE <= 0,
    ensures
        edge_sample(t, lower, upper) == lower || edge_sample(t, lower, upper) == lower - EDGE_NUDGE,
        edge_sample(t + MICROS_PER_DEGREE, lower, upper) == lower || edge_sample(
            t + MICROS_PER_DEGREE,
            lower,
            upper,
        ) == lower - EDGE_NUDGE,
        edge_sample(t, lower, upper) != edge_sample(t + MICROS_PER_DEGREE, lower, upper),
{
}

/// Above the upper limit (and at or above zero) samples one degree apart are
/// reported differently: one as the limit, the other just above it.
pub proof fn lemma_high_edge_alternates(t: int, lower: int, upper: int)
    requires
        t > upper,
        t >= 0,
        lower <= upper,
    ensures
        edge_sample(t, lower, upper) == upper || edge_sample(t, lower, upper) == upper + EDGE_NUDGE,
        edge_sample(t + MICROS_PER_DEGREE, lower, upper) == upper || edge_sample(
            t + MICROS_PER_DEGREE,
            lower,
            upper,
        ) == upper + EDGE_NUDGE,
        edge_sample(t, lower, upper) != edge_sample(t + MICROS_PER_DEGREE, lower, upper),
{
}

} // verus!
