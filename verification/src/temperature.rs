//! Temperatures, held in whole millikelvin.

use vstd::prelude::*;
use crate::fixed::Fixed;
use crate::fixed::abs;
use crate::fixed::trunc_div;
use crate::fixed::fits_i128;
use crate::fixed::differs_at_most;

verus! {

/// Billionths of a kelvin in one millikelvin.
pub const NANOKELVIN_PER_MILLIKELVIN: i128 = 1_000_000;

/// A temperature in whole millikelvin.
#[derive(Clone, Copy, Debug, PartialEq, Eq, Structural)]
pub struct Temperature {
    pub millikelvin: i128,
}

impl Temperature {
    /// The temperature in millikelvin.
    pub open spec fn view(&self) -> int {
        self.millikelvin as int
    }

    /// The temperature of `kelvin` kelvin, rounded towards zero to whole
    /// millikelvin.
    pub fn from_kelvin(kelvin: Fixed) -> (r: Temperature)
        ensures
            r@ == trunc_div(kelvin@, NANOKELVIN_PER_MILLIKELVIN as int),
    {
        Temperature { millikelvin: kelvin.nanos / NANOKELVIN_PER_MILLIKELVIN }
    }

    /// The temperature in kelvin.
    pub fn as_kelvin(&self) -> (r: Fixed)
        requires
            fits_i128(self@ * NANOKELVIN_PER_MILLIKELVIN),
        ensures
            r@ == self@ * NANOKELVIN_PER_MILLIKELVIN,
    {
        Fixed { nanos: self.millikelvin * NANOKELVIN_PER_MILLIKELVIN }
    }

    /// Tells whether the two temperatures differ by at most `accuracy`.
    pub fn eq_within(&self, other: Temperature, accuracy: Temperature) -> (r: bool)
        ensures
            r == (abs(self@ - other@) <= accuracy@),
    {
        differs_at_most(self.millikelvin, other.millikelvin, accuracy.millikelvin)
    }
}

} // verus!
