//! One tick of the control loop: from the duties now on the PWM channels and
//! the latest reading, the duties to apply next.
use vstd::prelude::*;

use crate::calibration::{LOWER_LIMIT, MAX_DUTY, UPPER_LIMIT};
use crate::color::{
    blue_duty, blue_level, duty_of, green_duty, green_level, in_band, red_duty, red_level,
};

verus! {

/// One of the three PWM output channels.
#[derive(Clone, Copy, Debug, PartialEq, Eq, Structural)]
pub enum Channel {
    Red,
    Green,
    Blue,
}

/// A duty value for each channel.
#[derive(Clone, Copy, Debug, PartialEq, Eq, Structural)]
pub struct Duties {
    pub red: u16,
    pub green: u16,
    pub blue: u16,
}

/// The duty an alarm leaves on a channel that had duty `d`: full period
/// where the channel was lit, dark where it was dark.
pub open spec fn alarm_duty(d: u16) -> u16 {
    if d != 0 { MAX_DUTY } else { 0 }
}

impl Duties {
    /// The duty of channel `ch`.
    pub open spec fn duty(self, ch: Channel) -> u16 {
        match ch {
            Channel::Red => self.red,
            Channel::Green => self.green,
            Channel::Blue => self.blue,
        }
    }

    /// Every channel raised to full period if it was lit, left dark otherwise.
    pub open spec fn alarmed(self) -> Duties {
        Duties {
            red: alarm_duty(self.red),
            green: alarm_duty(self.green),
            blue: alarm_duty(self.blue),
        }
    }

    /// The duties that encode the in-band reading `t`.
    pub open spec fn encoding(t: int) -> Duties {
        Duties {
            red: duty_of(red_level(t)) as u16,
            green: duty_of(green_level(t)) as u16,
            blue: duty_of(blue_level(t)) as u16,
        }
    }

    /// The duty of channel `ch`.
    pub fn duty_on(&self, ch: Channel) -> (r: u16)
        ensures
            r == self.duty(ch),
    {
        match ch {
            Channel::Red => self.red,
            Channel::Green => self.green,
            Channel::Blue => self.blue,
        }
    }

    /// Sets the duty of channel `ch` to `d`, leaving the other channels alone.
    pub fn set_duty_on(&mut self, ch: Channel, d: u16)
        ensures
            final(self).duty(ch) == d,
            forall|c: Channel| c != ch ==> final(self).duty(c) == old(self).duty(c),
    {
        match ch {
            Channel::Red => self.red = d,
            Channel::Green => self.green = d,
            Channel::Blue => self.blue = d,
        }
    }

    /// Raises channel `ch` to full period if it is lit; a dark channel stays dark.
    pub fn set_max_duty(&mut self, ch: Channel)
        ensures
            final(self).duty(ch) == alarm_duty(old(self).duty(ch)),
            forall|c: Channel| c != ch ==> final(self).duty(c) == old(self).duty(c),
    {
        if self.duty_on(ch) != 0 {
            self.set_duty_on(ch, MAX_DUTY);
        }
    }

    /// Puts every channel in its alarm state.
    pub fn set_max_duty_on_all(&mut self)
        ensures
            *final(self) == old(self).alarmed(),
    {
        self.set_max_duty(Channel::Red);
        self.set_max_duty(Channel::Green);
        self.set_max_duty(Channel::Blue);
    }

    /// The duties that encode the in-band reading `t` (micro-degrees).
    pub fn for_reading(t: i64) -> (r: Duties)
        requires
            in_band(t as int),
        ensures
            r == Duties::encoding(t as int),
    {
        Duties { red: red_duty(t), green: green_duty(t), blue: blue_duty(t) }
    }
}

/// Whether the reading `t` (micro-degrees) lies in the safe band.
pub fn is_in_band(t: i64) -> (r: bool)
    ensures
        r == in_band(t as int),
{
    -LOWER_LIMIT <= t && t <= UPPER_LIMIT
}

/// What one tick does: nothing without a reading; the encoding of an in-band
/// reading; the alarm state of `current` for a reading outside the band.
pub open spec fn tick(current: Duties, reading: Option<i64>) -> Option<Duties> {
    match reading {
        None => None,
        Some(t) => if in_band(t as int) {
            Some(Duties::encoding(t as int))
        } else {
            Some(current.alarmed())
        },
    }
}

/// One tick of the control loop. `current` holds the duties now on the
/// channels and `reading` the latest reading in micro-degrees, if any.
/// Returns the duties to apply, or `None` when there is nothing to update.
pub fn next_duties(current: Duties, reading: Option<i64>) -> (r: Option<Duties>)
    ensures
        r == tick(current, reading),
{
    match reading {
        None => None,
        Some(t) => {
            if is_in_band(t) {
                Some(Duties::for_reading(t))
            } else {
                let mut next = current;
                next.set_max_duty_on_all();
                Some(next)
            }
        },
    }
}

} // verus!
