use astro_utils::angle::Angle;
use astro_utils::angle::Normalizations;
use astro_utils::coordinates::EarthEquatorialCoordinates;
use astro_utils::coordinates::EquatorialCoordinates;
use astro_utils::direction::Direction;
use astro_utils::fixed::differs_at_most;
use astro_utils::fixed::div_towards_zero;
use astro_utils::fixed::floor_div;
use astro_utils::fixed::floor_mod;
use astro_utils::fixed::is_closer;
use astro_utils::fixed::Fixed;
use astro_utils::length::Length;
use astro_utils::length::METERS_PER_LIGHT_YEAR;
use astro_utils::luminosity::Luminosity;
use astro_utils::luminosity::CANDELA_PER_SOLAR_LUMINOSITY;
use astro_utils::mass::Mass;
use astro_utils::right_ascension::RightAscension;
use astro_utils::star_data::StarData;
use astro_utils::temperature::Temperature;
use astro_utils::time::Time;

fn fx(x: f64) -> Fixed {
    Fixed::from_nanos((x * 1e9).round() as i128)
}

#[test]
fn scalars_count_billionths() {
    assert_eq!(Fixed::zero().as_nanos(), 0);
    assert_eq!(Fixed::one().as_nanos(), 1_000_000_000);
    assert_eq!(Fixed::from_units(-7).as_nanos(), -7_000_000_000);
    assert_eq!(Fixed::from_units(i64::MAX).as_nanos(), 9_223_372_036_854_775_807_000_000_000);
    assert_eq!(Fixed::from_nanos(12).as_nanos(), 12);
}

#[test]
fn divisions_round_as_they_say() {
    assert_eq!(div_towards_zero(7, 2), 3);
    assert_eq!(div_towards_zero(-7, 2), -3);
    assert_eq!(div_towards_zero(i128::MIN, 1), i128::MIN);
    assert_eq!(floor_div(7, 2), 3);
    assert_eq!(floor_div(-7, 2), -4);
    assert_eq!(floor_div(-8, 2), -4);
    assert_eq!(floor_div(i128::MIN, 1), i128::MIN);
    assert_eq!(floor_div(i128::MIN, i128::MAX), -2);
    assert_eq!(floor_mod(7, 2), 1);
    assert_eq!(floor_mod(-7, 2), 1);
    assert_eq!(floor_mod(-8, 2), 0);
    assert_eq!(floor_mod(i128::MIN, i128::MAX), i128::MAX - 1);
}

#[test]
fn distances_between_numbers_are_compared_without_overflow() {
    assert!(is_closer(5, 4, 7));
    assert!(!is_closer(5, 7, 4));
    assert!(!is_closer(5, 4, 6));
    assert!(!is_closer(5, 5, 5));
    assert!(is_closer(0, i128::MAX, i128::MIN));
    assert!(!is_closer(-1, i128::MAX, i128::MIN));
    assert!(is_closer(i128::MAX, i128::MAX, i128::MIN));
    assert!(!is_closer(i128::MIN, i128::MAX, i128::MIN));
    assert!(differs_at_most(3, 5, 2));
    assert!(!differs_at_most(3, 6, 2));
    assert!(!differs_at_most(3, 3, -1));
    assert!(differs_at_most(i128::MIN + 1, 0, i128::MAX));
    assert!(!differs_at_most(i128::MIN, 0, i128::MAX));
    assert!(!differs_at_most(i128::MAX, i128::MIN, i128::MAX));
}

#[test]
fn lengths_are_held_in_metres() {
    assert_eq!(Length::from_light_years(fx(1.)).as_meters(), METERS_PER_LIGHT_YEAR);
    assert_eq!(Length::from_light_years(fx(-2.5)).as_meters(), -23_651_826_181_452_000);
    assert_eq!(Length::from_light_years(Fixed::from_nanos(1)).as_meters(), 9_460_730);
    assert_eq!(Length::from_meters(METERS_PER_LIGHT_YEAR).as_light_years(), fx(1.));
    assert_eq!(Length::from_meters(9_460_730).as_light_years(), Fixed::from_nanos(0));
    assert_eq!(Length::zero().as_meters(), 0);
    assert!(Length::from_meters(10).eq_within(Length::from_meters(7), Length::from_meters(3)));
    assert!(!Length::from_meters(10).eq_within(Length::from_meters(6), Length::from_meters(3)));
}

#[test]
fn temperatures_are_held_in_millikelvin() {
    assert_eq!(Temperature::from_kelvin(fx(5778.)).millikelvin, 5_778_000);
    assert_eq!(Temperature::from_kelvin(fx(0.0019)).millikelvin, 1);
    assert_eq!(Temperature::from_kelvin(fx(-0.0019)).millikelvin, -1);
    assert_eq!(Temperature { millikelvin: 5_778_123 }.as_kelvin(), fx(5778.123));
    let sun = Temperature::from_kelvin(fx(5778.));
    assert!(sun.eq_within(Temperature::from_kelvin(fx(5278.)), Temperature::from_kelvin(fx(500.))));
    assert!(!sun.eq_within(Temperature::from_kelvin(fx(5277.)), Temperature::from_kelvin(fx(500.))));
}

#[test]
fn luminous_intensities_are_held_in_candela() {
    let sun = Luminosity::from_solar_luminosities(fx(1.));
    assert_eq!(sun.as_candela(), CANDELA_PER_SOLAR_LUMINOSITY);
    assert_eq!(sun.as_solar_luminosities(), fx(1.));
    assert_eq!(Luminosity::from_candela(-5).as_candela(), -5);
    assert_eq!(Luminosity::from_solar_luminosities(fx(1.0e7)).as_solar_luminosities(), fx(1.0e7));
    assert_eq!(Luminosity::from_candela(2_979_999_999_999_999_999).as_solar_luminosities(), fx(0.));
}

#[test]
fn a_right_ascension_turns_fifteen_degrees_in_an_hour() {
    assert_eq!(RightAscension::new(0, 0, 0).to_angle(), Angle::zero());
    assert_eq!(RightAscension::new(6, 0, 0).to_angle(), Angle::from_degrees(fx(90.)));
    assert_eq!(RightAscension::new(12, 0, 0).to_angle(), Angle::from_picoradians(3_141_592_653_590));
    assert_eq!(RightAscension::new(0, 4, 0).to_angle(), Angle::from_degrees(fx(1.)));
    assert_eq!(RightAscension::new(0, 0, 1).to_angle(), Angle::from_arcsecs(fx(15.)));
    assert_eq!(RightAscension::new(-1, -30, 0).to_angle(), Angle::from_degrees(fx(-22.5)));
    let ra = RightAscension::new(5, 55, 10);
    assert_eq!((ra.hours, ra.minutes, ra.seconds), (5, 55, 10));
    assert_eq!(ra.to_angle(), Angle::from_picoradians(1_549_706_931_666));
    assert!(ra.to_angle().eq_within(Angle::from_degrees(fx(88.791666667)), fx(1e-9)));
}

#[test]
fn coordinates_keep_what_they_are_given() {
    let ra = Angle::from_degrees(fx(10.));
    let dec = Angle::from_degrees(fx(-20.));
    let place = EarthEquatorialCoordinates::new(ra, dec);
    assert_eq!(place.right_ascension, ra);
    assert_eq!(place.declination, dec);
    let mut place = EquatorialCoordinates::new(ra, dec, Direction::z_axis());
    assert_eq!((place.longitude, place.latitude, place.axis), (ra, dec, Direction::z_axis()));
    place.add_longitude(Angle::from_degrees(fx(180.)));
    let mut expected = Angle::from_degrees(fx(190.));
    expected.normalize(Normalizations::MinusPiToPi);
    assert_eq!(place.longitude, expected);
    assert!(place.longitude.picoradians < 0);
    assert_eq!(place.latitude, dec);
}

#[test]
fn a_star_tells_what_it_was_given() {
    let star = StarData::new(
        String::from("Sirius"),
        Some(Mass::from_solar_masses(fx(2.063))),
        Some(Length::from_meters(1_190_000_000)),
        Some(Luminosity::from_solar_luminosities(fx(25.4))),
        Some(Temperature::from_kelvin(fx(9940.))),
        Some(Time::from_years(fx(2.42e8))),
        Some(Length::from_light_years(fx(8.6))),
        Direction::new(1, 2, 3).unwrap(),
    );
    assert_eq!(star.get_name(), "Sirius");
    assert_eq!(*star.get_mass(), Some(Mass::from_solar_masses(fx(2.063))));
    assert_eq!(star.get_radius(), Some(Length::from_meters(1_190_000_000)));
    assert_eq!(*star.get_luminosity(), Some(Luminosity::from_solar_luminosities(fx(25.4))));
    assert_eq!(*star.get_temperature(), Some(Temperature::from_kelvin(fx(9940.))));
    assert_eq!(*star.get_age(), Some(Time::from_years(fx(2.42e8))));
    assert_eq!(*star.get_distance(), Some(Length::from_light_years(fx(8.6))));
    assert_eq!(*star.get_direction_in_ecliptic(), Direction { x: 1, y: 2, z: 3 });
}
