//! Places on a sphere, given by two angles.

use vstd::prelude::*;
use crate::angle::Angle;
use crate::angle::Normalizations;
use crate::angle::normalized;
use crate::direction::Direction;
use crate::fixed::fits_i128;

verus! {

/// A place on the sky as seen from the Earth: right ascension and
/// declination.
#[derive(Clone, Copy, Debug, PartialEq, Eq, Structural)]
pub struct EarthEquatorialCoordinates {
    pub right_ascension: Angle,
    pub declination: Angle,
}

/// A place on a sphere that turns about `axis`: longitude and latitude.
#[derive(Clone, Copy, Debug, PartialEq, Eq, Structural)]
pub struct EquatorialCoordinates {
    pub longitude: Angle,
    pub latitude: Angle,
    pub axis: Direction,
}

impl EarthEquatorialCoordinates {
    /// The place of the given right ascension and declination.
    pub fn new(right_ascension: Angle, declination: Angle) -> (r: EarthEquatorialCoordinates)
        ensures
            r == (EarthEquatorialCoordinates { right_ascension, declination }),
    {
        EarthEquatorialCoordinates { right_ascension, declination }
    }
}

impl EquatorialCoordinates {
    /// The place of the given longitude and latitude on a sphere that
    /// turns about `axis`.
    pub fn new(longitude: Angle, latitude: Angle, axis: Direction) -> (r: Self)
        ensures
            r == (EquatorialCoordinates { longitude, latitude, axis }),
    {
        Self { longitude, latitude, axis }
    }

    /// Turns the place about the axis by `longitude`, and brings its
    /// longitude into the range from minus half a turn to half a turn.
    pub fn add_longitude(&mut self, longitude: Angle)
        requires
            fits_i128(old(self).longitude@ + longitude@),
        ensures
            final(self).longitude@ == normalized(
                old(self).longitude@ + longitude@,
                Normalizations::MinusPiToPi,
            ),
            final(self).latitude == old(self).latitude,
            final(self).axis == old(self).axis,
    {
        let mut sum: Angle = self.longitude.plus(longitude);
        sum.normalize(Normalizations::MinusPiToPi);
        self.longitude = sum;
    }
}

} // verus!
