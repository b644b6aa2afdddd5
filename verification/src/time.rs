//! Spans of time, held in whole seconds.

use vstd::prelude::*;
use crate::display::format_ratio;
use crate::display::hundredths_text;
use crate::display::rounded_hundredths;
use crate::fixed::Fixed;
use crate::fixed::abs;
use crate::fixed::fits_i128;
use crate::fixed::scaled_up;
use crate::fixed::scaled_down;
use crate::fixed::scale_up;
use crate::fixed::scale_down;
use crate::fixed::differs_at_most;
use crate::fixed::NANOS_PER_UNIT;

verus! {

/// Seconds in one minute.
pub const SECONDS_PER_MINUTE: i128 = 60;

/// Seconds in one hour.
pub const SECONDS_PER_HOUR: i128 = 3_600;

/// Seconds in one day.
pub const SECONDS_PER_DAY: i128 = 86_400;

/// Seconds in one year of 365.25 days.
pub const SECONDS_PER_YEAR: i128 = 31_557_600;

/// The greatest magnitude, in seconds, of a span that is written out.
pub const DISPLAY_LIMIT: i128 = 1_000_000_000_000_000_000_000_000_000_000;

/// The seconds in the unit that a span of `seconds` seconds is written
/// in: the greatest of year, day, hour and minute of which the span
/// exceeds ninety-nine hundredths, else the second.
pub open spec fn display_unit(seconds: int) -> int {
    if abs(seconds) * 100 > 99 * SECONDS_PER_YEAR {
        SECONDS_PER_YEAR as int
    } else if abs(seconds) * 100 > 99 * SECONDS_PER_DAY {
        SECONDS_PER_DAY as int
    } else if abs(seconds) * 100 > 99 * SECONDS_PER_HOUR {
        SECONDS_PER_HOUR as int
    } else if abs(seconds) * 100 > 99 * SECONDS_PER_MINUTE {
        SECONDS_PER_MINUTE as int
    } else {
        1
    }
}

/// The name of the unit of `per_unit` seconds.
pub open spec fn unit_name(per_unit: int) -> Seq<char> {
    if per_unit == SECONDS_PER_YEAR {
        "yrs"@
    } else if per_unit == SECONDS_PER_DAY {
        "days"@
    } else if per_unit == SECONDS_PER_HOUR {
        "hrs"@
    } else if per_unit == SECONDS_PER_MINUTE {
        "min"@
    } else {
        "sec"@
    }
}

/// A span of time in whole seconds.
#[derive(Clone, Copy, Debug, PartialEq, Eq, Structural)]
pub struct Time {
    pub seconds: i128,
}

impl Time {
    /// The span in seconds.
    pub open spec fn view(&self) -> int {
        self.seconds as int
    }

    /// No time at all.
    pub fn zero() -> (r: Time)
        ensures
            r@ == 0,
    {
        Time { seconds: 0 }
    }

    /// The span of `seconds` whole seconds.
    pub fn from_seconds(seconds: i128) -> (r: Time)
        ensures
            r@ == seconds,
    {
        Time { seconds }
    }

    /// The span of `minutes` minutes, rounded towards zero to whole seconds.
    pub fn from_minutes(minutes: Fixed) -> (r: Time)
        requires
            fits_i128(minutes@ * SECONDS_PER_MINUTE),
        ensures
            r@ == scaled_up(minutes@, SECONDS_PER_MINUTE as int),
    {
        Time { seconds: scale_up(minutes, SECONDS_PER_MINUTE) }
    }

    /// The span of `hours` hours, rounded towards zero to whole seconds.
    pub fn from_hours(hours: Fixed) -> (r: Time)
        requires
            fits_i128(hours@ * SECONDS_PER_HOUR),
        ensures
            r@ == scaled_up(hours@, SECONDS_PER_HOUR as int),
    {
        Time { seconds: scale_up(hours, SECONDS_PER_HOUR) }
    }

    /// The span of `days` days, rounded towards zero to whole seconds.
    pub fn from_days(days: Fixed) -> (r: Time)
        requires
            fits_i128(days@ * SECONDS_PER_DAY),
        ensures
            r@ == scaled_up(days@, SECONDS_PER_DAY as int),
    {
        Time { seconds: scale_up(days, SECONDS_PER_DAY) }
    }

    /// The span of `years` years, rounded towards zero to whole seconds.
    pub fn from_years(years: Fixed) -> (r: Time)
        requires
            fits_i128(years@ * SECONDS_PER_YEAR),
        ensures
            r@ == scaled_up(years@, SECONDS_PER_YEAR as int),
    {
        Time { seconds: scale_up(years, SECONDS_PER_YEAR) }
    }

    /// The span in whole seconds.
    pub fn as_seconds(&self) -> (r: i128)
        ensures
            r == self@,
    {
        self.seconds
    }

    /// The span in minutes, rounded towards zero.
    pub fn as_minutes(&self) -> (r: Fixed)
        requires
            fits_i128(self@ * NANOS_PER_UNIT),
        ensures
            r@ == scaled_down(self@, SECONDS_PER_MINUTE as int),
    {
        scale_down(self.seconds, SECONDS_PER_MINUTE)
    }

    /// The span in hours, rounded towards zero.
    pub fn as_hours(&self) -> (r: Fixed)
        requires
            fits_i128(self@ * NANOS_PER_UNIT),
        ensures
            r@ == scaled_down(self@, SECONDS_PER_HOUR as int),
    {
        scale_down(self.seconds, SECONDS_PER_HOUR)
    }

    /// The span in days, rounded towards zero.
    pub fn as_days(&self) -> (r: Fixed)
        requires
            fits_i128(self@ * NANOS_PER_UNIT),
        ensures
            r@ == scaled_down(self@, SECONDS_PER_DAY as int),
    {
        scale_down(self.seconds, SECONDS_PER_DAY)
    }

    /// The span in years, rounded towards zero.
    pub fn as_years(&self) -> (r: Fixed)
        requires
            fits_i128(self@ * NANOS_PER_UNIT),
        ensures
            r@ == scaled_down(self@, SECONDS_PER_YEAR as int),
    {
        scale_down(self.seconds, SECONDS_PER_YEAR)
    }

    /// Tells whether the two spans differ by at most `accuracy`.
    pub fn eq_within(&self, other: Time, accuracy: Time) -> (r: bool)
        ensures
            r == (abs(self@ - other@) <= accuracy@),
    {
        differs_at_most(self.seconds, other.seconds, accuracy.seconds)
    }

    /// The span written with two decimal places, rounded to the nearest,
    /// in the greatest of year, day, hour and minute of which it exceeds
    /// ninety-nine hundredths, else in seconds.
    pub fn to_string(&self) -> (r: String)
        requires
            abs(self@) <= DISPLAY_LIMIT,
        ensures
            r@ == hundredths_text(
                self@ < 0,
                rounded_hundredths(abs(self@) as nat, display_unit(self@) as nat),
            ) + seq![' '] + unit_name(display_unit(self@)),
    {
        let negative: bool = self.seconds < 0;
        let amount: i128 = if negative {
            -self.seconds
        } else {
            self.seconds
        };
        if amount * 100 > 99 * SECONDS_PER_YEAR {
            format_ratio(negative, amount as u128, SECONDS_PER_YEAR as u128, "yrs")
        } else if amount * 100 > 99 * SECONDS_PER_DAY {
            format_ratio(negative, amount as u128, SECONDS_PER_DAY as u128, "days")
        } else if amount * 100 > 99 * SECONDS_PER_HOUR {
            format_ratio(negative, amount as u128, SECONDS_PER_HOUR as u128, "hrs")
        } else if amount * 100 > 99 * SECONDS_PER_MINUTE {
            format_ratio(negative, amount as u128, SECONDS_PER_MINUTE as u128, "min")
        } else {
            format_ratio(negative, amount as u128, 1, "sec")
        }
    }

    /// The sum of the two spans.
    pub fn plus(self, other: Time) -> (r: Time)
        requires
            fits_i128(self@ + other@),
        ensures
            r@ == self@ + other@,
    {
        Time { seconds: self.seconds + other.seconds }
    }

    /// The difference of the two spans.
    pub fn minus(self, other: Time) -> (r: Time)
        requires
            fits_i128(self@ - other@),
        ensures
            r@ == self@ - other@,
    {
        Time { seconds: self.seconds - other.seconds }
    }
}

} // verus!
