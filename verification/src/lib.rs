//! Stars for astronomy applications: tabulated evolutionary tracks, a
//! continuous-time evolution model, and a synthesised stellar population.
//!
//! Every quantity is held as an integer count of a small unit, so that each
//! lookup, comparison and extrapolation is exact.

pub mod fixed;
pub mod display;
pub mod mass_grid;
pub mod angle;
pub mod trigonometry;
pub mod planet_brightness;
pub mod mass;
pub mod time;
pub mod length;
pub mod temperature;
pub mod luminosity;
pub mod direction;
pub mod right_ascension;
pub mod coordinates;
pub mod star_data;
pub mod evolution;
pub mod sampling;
pub mod random_stars;
pub mod error;
pub mod decimal;
pub mod parsec_data;
