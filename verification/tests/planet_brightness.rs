use astro_utils::angle::Angle;
use astro_utils::fixed::Fixed;
use astro_utils::length::Length;
use astro_utils::planet_brightness::illuminated_fraction;
use astro_utils::planet_brightness::solid_angle;
use astro_utils::trigonometry::cosine;

const REAL_DATA_TEST_ACCURACY: f64 = 0.05;

fn fx(x: f64) -> Fixed {
    Fixed::from_nanos((x * 1e9).round() as i128)
}

fn fl(x: Fixed) -> f64 {
    x.as_nanos() as f64 / 1e9
}

fn sun_radius() -> Length {
    Length::from_meters(695_700_000)
}

fn earth_semi_major_axis() -> Length {
    Length::from_meters(149_597_870_700)
}

fn moon_radius() -> Length {
    Length::from_meters(1_737_400)
}

fn moon_semi_major_axis() -> Length {
    Length::from_meters(384_399_000)
}

#[test]
fn planet_brightness_solid_angle_of_sun() {
    let expected = 7e-5;
    let actual = fl(solid_angle(
        &sun_radius(),
        &earth_semi_major_axis(),
        &Angle::from_degrees(fx(0.)),
    ));
    println!("expected: {}, actual: {}", expected, actual);
    assert!((actual - expected).abs() < REAL_DATA_TEST_ACCURACY * expected);
}

#[test]
fn planet_brightness_solid_angle_of_full_moon() {
    let expected = 6.4e-5;
    let actual = fl(solid_angle(
        &moon_radius(),
        &moon_semi_major_axis(),
        &Angle::from_degrees(fx(0.)),
    ));
    println!("expected: {}, actual: {}", expected, actual);
    assert!((actual - expected).abs() < REAL_DATA_TEST_ACCURACY * expected);
}

#[test]
fn solid_angle_of_half_moon() {
    let expected = 6.4e-5 / 2.;
    let actual = fl(solid_angle(
        &moon_radius(),
        &moon_semi_major_axis(),
        &Angle::from_degrees(fx(90.)),
    ));
    println!("expected: {}, actual: {}", expected, actual);
    assert!((actual - expected).abs() < REAL_DATA_TEST_ACCURACY * expected);
}

#[test]
fn the_cosine_follows_the_circle() {
    assert_eq!(cosine(&Angle::zero()), Fixed::from_units(1));
    for i in -720..720 {
        let degrees = i as f64 * 0.5;
        let actual = fl(cosine(&Angle::from_degrees(fx(degrees))));
        let expected = degrees.to_radians().cos();
        assert!((actual - expected).abs() < 1e-8, "{}: {} {}", degrees, actual, expected);
    }
    assert_eq!(cosine(&Angle::from_degrees(fx(180.))), Fixed::from_units(-1));
}

#[test]
fn the_lit_part_runs_from_all_to_nothing() {
    assert_eq!(illuminated_fraction(&Angle::from_degrees(fx(0.))), Fixed::from_units(1));
    assert!((fl(illuminated_fraction(&Angle::from_degrees(fx(90.)))) - 0.5).abs() < 1e-8);
    assert!((fl(illuminated_fraction(&Angle::from_degrees(fx(60.)))) - 0.75).abs() < 1e-8);
    assert_eq!(illuminated_fraction(&Angle::from_degrees(fx(180.))), Fixed::from_units(0));
}

#[test]
fn nothing_of_a_body_is_seen_from_behind() {
    let actual = solid_angle(&moon_radius(), &moon_semi_major_axis(), &Angle::from_degrees(fx(180.)));
    assert_eq!(actual, Fixed::from_nanos(0));
    let actual = solid_angle(&Length::from_meters(1), &Length::from_meters(1), &Angle::zero());
    assert_eq!(actual, Fixed::from_nanos(3_141_592_654));
}
