//! Luminous intensities, held in whole candela.

use vstd::prelude::*;
use crate::fixed::Fixed;
use crate::fixed::fits_i128;
use crate::fixed::trunc_div;

verus! {

/// Candela that the Sun shines with.
pub const CANDELA_PER_SOLAR_LUMINOSITY: i128 = 2_980_000_000_000_000_000_000_000_000;

/// Candela in one billionth of the Sun's luminous intensity.
pub const CANDELA_PER_NANO_SOLAR_LUMINOSITY: i128 = 2_980_000_000_000_000_000;

/// The luminous intensity of a star in whole candela.
#[derive(Clone, Copy, Debug, PartialEq, Eq, Structural)]
pub struct Luminosity {
    pub candela: i128,
}

impl Luminosity {
    /// The luminous intensity in candela.
    pub open spec fn view(&self) -> int {
        self.candela as int
    }

    /// The luminous intensity of `candela` whole candela.
    pub fn from_candela(candela: i128) -> (r: Luminosity)
        ensures
            r@ == candela,
    {
        Luminosity { candela }
    }

    /// The luminous intensity of `solar_luminosities` Suns.
    pub fn from_solar_luminosities(solar_luminosities: Fixed) -> (r: Luminosity)
        requires
            fits_i128(solar_luminosities@ * CANDELA_PER_NANO_SOLAR_LUMINOSITY),
        ensures
            r@ == solar_luminosities@ * CANDELA_PER_NANO_SOLAR_LUMINOSITY,
    {
        Luminosity { candela: solar_luminosities.nanos * CANDELA_PER_NANO_SOLAR_LUMINOSITY }
    }

    /// The luminous intensity in whole candela.
    pub fn as_candela(&self) -> (r: i128)
        ensures
            r == self@,
    {
        self.candela
    }

    /// The luminous intensity in Suns, rounded towards zero.
    pub fn as_solar_luminosities(&self) -> (r: Fixed)
        ensures
            r@ == trunc_div(self@, CANDELA_PER_NANO_SOLAR_LUMINOSITY as int),
    {
        Fixed { nanos: self.candela / CANDELA_PER_NANO_SOLAR_LUMINOSITY }
    }
}

} // verus!
