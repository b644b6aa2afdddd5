//! What is known of one star.

use vstd::prelude::*;
use crate::direction::Direction;
use crate::length::Length;
use crate::luminosity::Luminosity;
use crate::mass::Mass;
use crate::temperature::Temperature;
use crate::time::Time;

verus! {

/// The properties of one star, each as far as it is known.
#[derive(Clone, Debug)]
pub struct StarData {
    pub name: String,
    pub mass: Option<Mass>,
    pub radius: Option<Length>,
    pub luminosity: Option<Luminosity>,
    pub temperature: Option<Temperature>,
    pub age: Option<Time>,
    pub distance: Option<Length>,
    pub direction_in_ecliptic: Direction,
}

impl StarData {
    /// The star of the given properties.
    pub fn new(
        name: String,
        mass: Option<Mass>,
        radius: Option<Length>,
        luminosity: Option<Luminosity>,
        temperature: Option<Temperature>,
        age: Option<Time>,
        distance: Option<Length>,
        direction_in_ecliptic: Direction,
    ) -> (r: StarData)
        ensures
            r == (StarData {
                name,
                mass,
                radius,
                luminosity,
                temperature,
                age,
                distance,
                direction_in_ecliptic,
            }),
    {
        StarData { name, mass, radius, luminosity, temperature, age, distance, direction_in_ecliptic }
    }

    /// The star's name.
    pub fn get_name(&self) -> (r: &String)
        ensures
            *r == self.name,
    {
        &self.name
    }

    /// The star's radius.
    pub fn get_radius(&self) -> (r: Option<Length>)
        ensures
            r == self.radius,
    {
        self.radius
    }

    /// The star's mass.
    pub fn get_mass(&self) -> (r: &Option<Mass>)
        ensures
            *r == self.mass,
    {
        &self.mass
    }

    /// The star's luminous intensity.
    pub fn get_luminosity(&self) -> (r: &Option<Luminosity>)
        ensures
            *r == self.luminosity,
    {
        &self.luminosity
    }

    /// The star's temperature.
    pub fn get_temperature(&self) -> (r: &Option<Temperature>)
        ensures
            *r == self.temperature,
    {
        &self.temperature
    }

    /// The star's age.
    pub fn get_age(&self) -> (r: &Option<Time>)
        ensures
            *r == self.age,
    {
        &self.age
    }

    /// The star's distance from the observer.
    pub fn get_distance(&self) -> (r: &Option<Length>)
        ensures
            *r == self.distance,
    {
        &self.distance
    }

    /// The direction in which the star stands, in ecliptic coordinates.
    pub fn get_direction_in_ecliptic(&self) -> (r: &Direction)
        ensures
            *r == self.direction_in_ecliptic,
    {
        &self.direction_in_ecliptic
    }
}

} // verus!
