use astro_utils::fixed::Fixed;
use astro_utils::mass::Mass;
use astro_utils::mass::KILOGRAMS_PER_EARTH_MASS;
use astro_utils::mass::KILOGRAMS_PER_JUPITER_MASS;
use astro_utils::mass::KILOGRAMS_PER_MOON_MASS;
use astro_utils::mass::KILOGRAMS_PER_NANO_SOLAR_MASS;
use astro_utils::mass::KILOGRAMS_PER_SOLAR_MASS;

const TEST_ACCURACY: f64 = 1e-5;

fn accuracy() -> Mass {
    Mass::from_kilograms(0)
}

fn fx(x: f64) -> Fixed {
    Fixed::from_nanos((x * 1e9).round() as i128)
}

fn fl(x: Fixed) -> f64 {
    x.as_nanos() as f64 / 1e9
}

#[test]
fn test_kilogram() {
    let mass = Mass::from_kilograms(1);
    assert!((mass.as_kilograms() as f64 - 1.).abs() < TEST_ACCURACY);
}

#[test]
fn test_moon_masses() {
    let expected = Mass::from_kilograms(KILOGRAMS_PER_MOON_MASS);
    let mass = Mass::from_moon_masses(fx(1.));
    assert!(mass.eq_within(expected, accuracy()));
    assert!((fl(mass.as_moon_masses()) - 1.).abs() < TEST_ACCURACY);
}

#[test]
fn test_earth_masses() {
    let expected = Mass::from_kilograms(KILOGRAMS_PER_EARTH_MASS);
    let mass = Mass::from_earth_masses(fx(1.));
    assert!(mass.eq_within(expected, accuracy()));
    assert!((fl(mass.as_earth_masses()) - 1.).abs() < TEST_ACCURACY);
}

#[test]
fn test_jupiter_masses() {
    let expected = Mass::from_kilograms(KILOGRAMS_PER_JUPITER_MASS);
    let mass = Mass::from_jupiter_masses(fx(1.));
    assert!(mass.eq_within(expected, accuracy()));
    assert!((fl(mass.as_jupiter_masses()) - 1.).abs() < TEST_ACCURACY);
}

#[test]
fn test_solar_masses() {
    let expected = Mass::from_kilograms(KILOGRAMS_PER_SOLAR_MASS);
    let mass = Mass::from_solar_masses(fx(1.));
    assert!(mass.eq_within(expected, accuracy()));
    assert!((fl(mass.as_solar_masses()) - 1.).abs() < TEST_ACCURACY);
}

#[test]
fn test_addition() {
    let mass1 = Mass::from_kilograms(1);
    let mass2 = Mass::from_kilograms(2);
    let expected = Mass::from_kilograms(3);
    assert!(mass1.plus(mass2).eq_within(expected, accuracy()));
}

#[test]
fn test_subtraction() {
    let mass1 = Mass::from_kilograms(1);
    let mass2 = Mass::from_kilograms(2);
    let expected = Mass::from_kilograms(-1);
    assert!(mass1.minus(mass2).eq_within(expected, accuracy()));
}

#[test]
fn masses_convert_exactly() {
    assert_eq!(
        Mass::from_solar_masses(fx(0.09)).as_kilograms(),
        179_010_000_000_000_000_000_000_000_000
    );
    assert_eq!(Mass::from_kilograms(-3).as_solar_masses(), Fixed::from_nanos(0));
    assert_eq!(
        Mass::from_kilograms(-2 * KILOGRAMS_PER_SOLAR_MASS).as_solar_masses(),
        Fixed::from_units(-2)
    );
    assert!(Mass::fits(fx(350.0), KILOGRAMS_PER_NANO_SOLAR_MASS));
    assert!(!Mass::fits(Fixed::from_nanos(i128::MAX), KILOGRAMS_PER_NANO_SOLAR_MASS));
    assert!(Mass::zero().eq_within(Mass::from_kilograms(5), Mass::from_kilograms(5)));
    assert!(!Mass::zero().eq_within(Mass::from_kilograms(5), Mass::from_kilograms(4)));
    assert!(!Mass::from_kilograms(i128::MIN).eq_within(Mass::from_kilograms(i128::MAX), Mass::from_kilograms(i128::MAX)));
}
