//! Masses, held in whole kilograms.

use vstd::prelude::*;
use crate::fixed::Fixed;
use crate::fixed::abs;
use crate::fixed::trunc_div;
use crate::fixed::differs_at_most;
use crate::fixed::div_towards_zero;

verus! {

/// Kilograms in one billionth of a Moon mass.
pub const KILOGRAMS_PER_NANO_MOON_MASS: i128 = 73_420_000_000_000;

/// Kilograms in one billionth of an Earth mass.
pub const KILOGRAMS_PER_NANO_EARTH_MASS: i128 = 5_972_000_000_000_000;

/// Kilograms in one billionth of a Jupiter mass.
pub const KILOGRAMS_PER_NANO_JUPITER_MASS: i128 = 1_898_000_000_000_000_000;

/// Kilograms in one billionth of a solar mass.
pub const KILOGRAMS_PER_NANO_SOLAR_MASS: i128 = 1_989_000_000_000_000_000_000;

/// Kilograms in one Moon mass.
pub const KILOGRAMS_PER_MOON_MASS: i128 = 73_420_000_000_000_000_000_000;

/// Kilograms in one Earth mass.
pub const KILOGRAMS_PER_EARTH_MASS: i128 = 5_972_000_000_000_000_000_000_000;

/// Kilograms in one Jupiter mass.
pub const KILOGRAMS_PER_JUPITER_MASS: i128 = 1_898_000_000_000_000_000_000_000_000;

/// Kilograms in one solar mass.
pub const KILOGRAMS_PER_SOLAR_MASS: i128 = 1_989_000_000_000_000_000_000_000_000_000;

/// `true` when `x` units of `factor` kilograms each fit the mass type.
pub open spec fn mass_fits(x: int, factor: int) -> bool {
    -(i128::MAX as int) <= x * factor <= i128::MAX as int
}

/// A mass in whole kilograms.
#[derive(Clone, Copy, Debug, PartialEq, Eq, Structural)]
pub struct Mass {
    pub kilograms: i128,
}

impl Mass {
    /// The mass in kilograms.
    pub open spec fn view(&self) -> int {
        self.kilograms as int
    }

    /// No mass at all.
    pub fn zero() -> (r: Mass)
        ensures
            r@ == 0,
    {
        Mass { kilograms: 0 }
    }

    /// The mass of `kilograms` whole kilograms.
    pub fn from_kilograms(kilograms: i128) -> (r: Mass)
        ensures
            r@ == kilograms,
    {
        Mass { kilograms }
    }

    /// The mass of `moon_masses` Moon masses.
    pub fn from_moon_masses(moon_masses: Fixed) -> (r: Mass)
        requires
            mass_fits(moon_masses@, KILOGRAMS_PER_NANO_MOON_MASS as int),
        ensures
            r@ == moon_masses@ * KILOGRAMS_PER_NANO_MOON_MASS,
    {
        Mass { kilograms: moon_masses.nanos * KILOGRAMS_PER_NANO_MOON_MASS }
    }

    /// The mass of `earth_masses` Earth masses.
    pub fn from_earth_masses(earth_masses: Fixed) -> (r: Mass)
        requires
            mass_fits(earth_masses@, KILOGRAMS_PER_NANO_EARTH_MASS as int),
        ensures
            r@ == earth_masses@ * KILOGRAMS_PER_NANO_EARTH_MASS,
    {
        Mass { kilograms: earth_masses.nanos * KILOGRAMS_PER_NANO_EARTH_MASS }
    }

    /// The mass of `jupiter_masses` Jupiter masses.
    pub fn from_jupiter_masses(jupiter_masses: Fixed) -> (r: Mass)
        requires
            mass_fits(jupiter_masses@, KILOGRAMS_PER_NANO_JUPITER_MASS as int),
        ensures
            r@ == jupiter_masses@ * KILOGRAMS_PER_NANO_JUPITER_MASS,
    {
        Mass { kilograms: jupiter_masses.nanos * KILOGRAMS_PER_NANO_JUPITER_MASS }
    }

    /// The mass of `solar_masses` solar masses.
    pub fn from_solar_masses(solar_masses: Fixed) -> (r: Mass)
        requires
            mass_fits(solar_masses@, KILOGRAMS_PER_NANO_SOLAR_MASS as int),
        ensures
            r@ == solar_masses@ * KILOGRAMS_PER_NANO_SOLAR_MASS,
    {
        Mass { kilograms: solar_masses.nanos * KILOGRAMS_PER_NANO_SOLAR_MASS }
    }

    /// The mass in whole kilograms.
    pub fn as_kilograms(&self) -> (r: i128)
        ensures
            r == self@,
    {
        self.kilograms
    }

    /// The mass in Moon masses, rounded towards zero.
    pub fn as_moon_masses(&self) -> (r: Fixed)
        ensures
            r@ == trunc_div(self@, KILOGRAMS_PER_NANO_MOON_MASS as int),
    {
        Fixed { nanos: div_towards_zero(self.kilograms, KILOGRAMS_PER_NANO_MOON_MASS) }
    }

    /// The mass in Earth masses, rounded towards zero.
    pub fn as_earth_masses(&self) -> (r: Fixed)
        ensures
            r@ == trunc_div(self@, KILOGRAMS_PER_NANO_EARTH_MASS as int),
    {
        Fixed { nanos: div_towards_zero(self.kilograms, KILOGRAMS_PER_NANO_EARTH_MASS) }
    }

    /// The mass in Jupiter masses, rounded towards zero.
    pub fn as_jupiter_masses(&self) -> (r: Fixed)
        ensures
            r@ == trunc_div(self@, KILOGRAMS_PER_NANO_JUPITER_MASS as int),
    {
        Fixed { nanos: div_towards_zero(self.kilograms, KILOGRAMS_PER_NANO_JUPITER_MASS) }
    }

    /// The mass in solar masses, rounded towards zero.
    pub fn as_solar_masses(&self) -> (r: Fixed)
        ensures
            r@ == trunc_div(self@, KILOGRAMS_PER_NANO_SOLAR_MASS as int),
    {
        Fixed { nanos: div_towards_zero(self.kilograms, KILOGRAMS_PER_NANO_SOLAR_MASS) }
    }

    /// Tells whether the two masses differ by at most `accuracy`.
    pub fn eq_within(&self, other: Mass, accuracy: Mass) -> (r: bool)
        ensures
            r == (abs(self@ - other@) <= accuracy@),
    {
        differs_at_most(self.kilograms, other.kilograms, accuracy.kilograms)
    }

    /// The sum of the two masses.
    pub fn plus(self, other: Mass) -> (r: Mass)
        requires
            i128::MIN <= self@ + other@ <= i128::MAX,
        ensures
            r@ == self@ + other@,
    {
        Mass { kilograms: self.kilograms + other.kilograms }
    }

    /// The difference of the two masses.
    pub fn minus(self, other: Mass) -> (r: Mass)
        requires
            i128::MIN <= self@ - other@ <= i128::MAX,
        ensures
            r@ == self@ - other@,
    {
        Mass { kilograms: self.kilograms - other.kilograms }
    }

    /// Tells whether `units` billionths of a unit of `factor` kilograms per
    /// billionth fit the mass type.
    pub fn fits(units: Fixed, factor: i128) -> (r: bool)
        requires
            factor > 0,
        ensures
            r == mass_fits(units@, factor as int),
    {
        match units.nanos.checked_mul(factor) {
            Some(k) => k != i128::MIN,
            None => false,
        }
    }
}

} // verus!
