//! Right ascensions, given in hours, minutes and seconds.

use vstd::prelude::*;
use crate::angle::Angle;
use crate::angle::PI_PICORADIANS;
use crate::fixed::trunc_div;

verus! {

/// Seconds of right ascension in half a turn.
pub const SECONDS_PER_HALF_TURN: i128 = 43_200;

/// A right ascension in hours, minutes and seconds.
#[derive(Clone, Copy, Debug, PartialEq, Eq, Structural)]
pub struct RightAscension {
    pub hours: i8,
    pub minutes: i8,
    pub seconds: i8,
}

impl RightAscension {
    /// The right ascension of the given hours, minutes and seconds.
    pub fn new(hours: i8, minutes: i8, seconds: i8) -> (r: Self)
        ensures
            r == (RightAscension { hours, minutes, seconds }),
    {
        Self { hours, minutes, seconds }
    }

    /// The right ascension in seconds.
    pub open spec fn total_seconds(&self) -> int {
        self.hours * 3600 + self.minutes * 60 + self.seconds
    }

    /// The right ascension as an angle, a full turn to twenty-four hours,
    /// rounded towards zero.
    pub fn to_angle(&self) -> (r: Angle)
        ensures
            r@ == trunc_div(
                self.total_seconds() * PI_PICORADIANS,
                SECONDS_PER_HALF_TURN as int,
            ),
    {
        let total: i128 = (self.hours as i128) * 3600 + (self.minutes as i128) * 60 + (
        self.seconds as i128);
        assert(-500_000 <= total <= 500_000);
        assert(-500_000 * PI_PICORADIANS <= total * PI_PICORADIANS <= 500_000 * PI_PICORADIANS);
        Angle { picoradians: (total * PI_PICORADIANS) / SECONDS_PER_HALF_TURN }
    }
}

} // verus!
