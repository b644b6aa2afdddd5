//! Lengths, held in whole metres.

use vstd::prelude::*;
use crate::fixed::Fixed;
use crate::fixed::abs;
use crate::fixed::fits_i128;
use crate::fixed::scaled_up;
use crate::fixed::scaled_down;
use crate::fixed::scale_up;
use crate::fixed::scale_down;
use crate::fixed::differs_at_most;
use crate::fixed::NANOS_PER_UNIT;

verus! {

/// Metres in one light-year.
pub const METERS_PER_LIGHT_YEAR: i128 = 9_460_730_472_580_800;

/// A length in whole metres.
#[derive(Clone, Copy, Debug, PartialEq, Eq, Structural)]
pub struct Length {
    pub meters: i128,
}

impl Length {
    /// The length in metres.
    pub open spec fn view(&self) -> int {
        self.meters as int
    }

    /// No length at all.
    pub fn zero() -> (r: Length)
        ensures
            r@ == 0,
    {
        Length { meters: 0 }
    }

    /// The length of `meters` whole metres.
    pub fn from_meters(meters: i128) -> (r: Length)
        ensures
            r@ == meters,
    {
        Length { meters }
    }

    /// The length of `light_years` light-years, rounded towards zero to
    /// whole metres.
    pub fn from_light_years(light_years: Fixed) -> (r: Length)
        requires
            fits_i128(light_years@ * METERS_PER_LIGHT_YEAR),
        ensures
            r@ == scaled_up(light_years@, METERS_PER_LIGHT_YEAR as int),
    {
        Length { meters: scale_up(light_years, METERS_PER_LIGHT_YEAR) }
    }

    /// The length in whole metres.
    pub fn as_meters(&self) -> (r: i128)
        ensures
            r == self@,
    {
        self.meters
    }

    /// The length in light-years, rounded towards zero.
    pub fn as_light_years(&self) -> (r: Fixed)
        requires
            fits_i128(self@ * NANOS_PER_UNIT),
        ensures
            r@ == scaled_down(self@, METERS_PER_LIGHT_YEAR as int),
    {
        scale_down(self.meters, METERS_PER_LIGHT_YEAR)
    }

    /// Tells whether the two lengths differ by at most `accuracy`.
    pub fn eq_within(&self, other: Length, accuracy: Length) -> (r: bool)
        ensures
            r == (abs(self@ - other@) <= accuracy@),
    {
        differs_at_most(self.meters, other.meters, accuracy.meters)
    }
}

} // verus!
