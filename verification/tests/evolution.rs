use astro_utils::direction::Direction;
use astro_utils::evolution::Evolved;
use astro_utils::evolution::Rate;
use astro_utils::evolution::StarDataEvolution;
use astro_utils::evolution::StarDataLifestageEvolution;
use astro_utils::evolution::StarFate;
use astro_utils::fixed::Fixed;
use astro_utils::length::Length;
use astro_utils::luminosity::Luminosity;
use astro_utils::mass::Mass;
use astro_utils::star_data::StarData;
use astro_utils::temperature::Temperature;
use astro_utils::time::Time;
use astro_utils::time::SECONDS_PER_YEAR;

fn fx(x: f64) -> Fixed {
    Fixed::from_nanos((x * 1e9).round() as i128)
}

fn star(
    mass: Option<i128>,
    radius: Option<i128>,
    luminosity: Option<i128>,
    temperature: Option<i128>,
) -> StarData {
    StarData::new(
        String::from("sample"),
        mass.map(Mass::from_kilograms),
        radius.map(Length::from_meters),
        luminosity.map(Luminosity::from_candela),
        temperature.map(|millikelvin| Temperature { millikelvin }),
        None,
        None,
        Direction::z_axis(),
    )
}

fn sun_then() -> StarData {
    star(
        Some(1_989_000_000_000_000_000_000_000_000_000),
        Some(695_700_000),
        Some(2_980_000_000_000_000_000_000_000_000),
        Some(5_778_000),
    )
}

fn sun_now() -> StarData {
    star(
        Some(1_988_999_999_999_999_999_999_999_999_993),
        Some(695_700_017),
        Some(2_980_000_000_000_000_000_000_000_001),
        Some(5_778_004),
    )
}

#[test]
fn a_rate_brings_its_change_in_its_span() {
    let rate = Rate::new(10, 3);
    assert_eq!(rate.after(Time::from_seconds(0)), Some(0));
    assert_eq!(rate.after(Time::from_seconds(1)), Some(3));
    assert_eq!(rate.after(Time::from_seconds(2)), Some(6));
    assert_eq!(rate.after(Time::from_seconds(3)), Some(10));
    assert_eq!(rate.after(Time::from_seconds(300)), Some(1000));
    // What has not yet come about is rounded down, before the epoch too.
    assert_eq!(rate.after(Time::from_seconds(-1)), Some(-4));
    assert_eq!(rate.after(Time::from_seconds(-3)), Some(-10));
    let falling = Rate::new(-10, 3);
    assert_eq!(falling.after(Time::from_seconds(1)), Some(-4));
    assert_eq!(falling.after(Time::from_seconds(3)), Some(-10));
}

#[test]
fn a_span_is_counted_forwards() {
    assert_eq!(Rate::new(10, -3), Rate { change: -10, span: 3 });
    assert_eq!(Rate::new(-7, -2), Rate { change: 7, span: 2 });
    assert_eq!(Rate::new(5, 2), Rate { change: 5, span: 2 });
    assert_eq!(Rate::zero(), Rate { change: 0, span: 1 });
    assert_eq!(Rate::new(10, -3).after(Time::from_seconds(-3)), Some(10));
}

#[test]
fn a_change_beyond_the_numbers_is_not_given() {
    let rate = Rate::new(i128::MAX, 1);
    assert_eq!(rate.after(Time::from_seconds(1)), Some(i128::MAX));
    assert_eq!(rate.after(Time::from_seconds(2)), None);
    let slow = Rate::new(1, i128::MAX);
    assert_eq!(slow.after(Time::from_seconds(i128::MAX)), Some(1));
    assert_eq!(slow.after(Time::from_seconds(i128::MAX - 1)), Some(0));
}

#[test]
fn no_evolution_leaves_each_property_as_it_is() {
    let evolution = StarDataEvolution::none();
    assert!(evolution.is_valid());
    let mass = Mass::from_kilograms(1_989_000_000_000_000_000_000_000_000_000);
    for seconds in [0, 1, -1, SECONDS_PER_YEAR, 1_000_000 * SECONDS_PER_YEAR, i128::MAX, i128::MIN] {
        let t = Time::from_seconds(seconds);
        assert_eq!(evolution.apply_to_mass(mass, t), Some(Evolved::Interpolated(mass)));
        assert_eq!(
            evolution.apply_to_radius(Length::from_meters(7), t),
            Some(Evolved::Interpolated(Length::from_meters(7)))
        );
        assert_eq!(
            evolution.apply_to_luminous_intensity(Luminosity::from_candela(-3), t),
            Some(Evolved::Interpolated(Luminosity::from_candela(-3)))
        );
        assert_eq!(
            evolution.apply_to_temperature(Temperature { millikelvin: 5_778_000 }, t),
            Some(Evolved::Interpolated(Temperature { millikelvin: 5_778_000 }))
        );
        assert!(!evolution.is_dead_at(t));
        assert_eq!(evolution.time_until_death(t), None);
    }
}

#[test]
fn a_zero_rate_and_an_unknown_age_keep_a_star_unchanged() {
    let lifestage = StarDataLifestageEvolution::new(&sun_then(), &sun_then(), fx(5.));
    assert_eq!(lifestage.mass_per_year, Rate { change: 0, span: 5 * SECONDS_PER_YEAR });
    let evolution =
        StarDataEvolution::new(Some(lifestage), None, Time::from_seconds(7), StarFate::WhiteDwarf);
    for seconds in [0, 17, -17, 1_000_000_000 * SECONDS_PER_YEAR, i128::MAX, i128::MIN] {
        let t = Time::from_seconds(seconds);
        assert_eq!(
            evolution.apply_to_temperature(Temperature { millikelvin: 5_778_000 }, t),
            Some(Evolved::Interpolated(Temperature { millikelvin: 5_778_000 }))
        );
        assert_eq!(
            evolution.apply_to_mass(Mass::from_kilograms(12), t),
            Some(Evolved::Interpolated(Mass::from_kilograms(12)))
        );
    }
}

#[test]
fn drifts_are_the_differences_of_two_samples() {
    let lifestage = StarDataLifestageEvolution::new(&sun_now(), &sun_then(), fx(2.));
    let span = 2 * SECONDS_PER_YEAR;
    assert_eq!(lifestage.mass_per_year, Rate { change: -7, span });
    assert_eq!(lifestage.radius_per_year, Rate { change: 17, span });
    assert_eq!(lifestage.luminous_intensity_per_year, Rate { change: 1, span });
    assert_eq!(lifestage.temperature_per_year, Rate { change: 4, span });
}

#[test]
fn a_property_that_a_sample_lacks_does_not_drift() {
    let now = star(Some(10), None, Some(5), None);
    let then = star(None, Some(3), Some(2), Some(1));
    let lifestage = StarDataLifestageEvolution::new(&now, &then, fx(1.));
    assert_eq!(lifestage.mass_per_year, Rate::zero());
    assert_eq!(lifestage.radius_per_year, Rate::zero());
    assert_eq!(lifestage.luminous_intensity_per_year, Rate { change: 3, span: SECONDS_PER_YEAR });
    assert_eq!(lifestage.temperature_per_year, Rate::zero());
}

#[test]
fn the_later_sample_is_reached_after_the_years_between() {
    for years in [2., 0.5, 1.0e9, 3.25, -4.] {
        let lifestage = StarDataLifestageEvolution::new(&sun_now(), &sun_then(), fx(years));
        let evolution =
            StarDataEvolution::new(Some(lifestage), None, Time::zero(), StarFate::WhiteDwarf);
        assert!(evolution.is_valid());
        let t = Time::from_years(fx(years));
        assert_eq!(
            evolution.apply_to_mass(sun_then().mass.unwrap(), t),
            Some(Evolved::Interpolated(sun_now().mass.unwrap()))
        );
        assert_eq!(
            evolution.apply_to_radius(sun_then().radius.unwrap(), t),
            Some(Evolved::Interpolated(sun_now().radius.unwrap()))
        );
        assert_eq!(
            evolution.apply_to_luminous_intensity(sun_then().luminosity.unwrap(), t),
            Some(Evolved::Interpolated(sun_now().luminosity.unwrap()))
        );
        assert_eq!(
            evolution.apply_to_temperature(sun_then().temperature.unwrap(), t),
            Some(Evolved::Interpolated(sun_now().temperature.unwrap()))
        );
        assert_eq!(
            evolution.apply_to_mass(sun_then().mass.unwrap(), Time::zero()),
            Some(Evolved::Interpolated(sun_then().mass.unwrap()))
        );
    }
}

#[test]
fn a_drift_is_steady() {
    let now = star(None, Some(1_100), None, None);
    let then = star(None, Some(1_000), None, None);
    let lifestage = StarDataLifestageEvolution::new(&now, &then, fx(10.));
    let evolution =
        StarDataEvolution::new(Some(lifestage), None, Time::zero(), StarFate::TypeIISupernova);
    let radius = Length::from_meters(1_000);
    let at = |years: f64| evolution.apply_to_radius(radius, Time::from_years(fx(years)));
    assert_eq!(at(5.), Some(Evolved::Interpolated(Length::from_meters(1_050))));
    assert_eq!(at(20.), Some(Evolved::Interpolated(Length::from_meters(1_200))));
    assert_eq!(at(-10.), Some(Evolved::Interpolated(Length::from_meters(900))));
    assert_eq!(at(0.05), Some(Evolved::Interpolated(Length::from_meters(1_000))));
    assert_eq!(at(-0.05), Some(Evolved::Interpolated(Length::from_meters(999))));
    assert_eq!(evolution.get_lifestage_radius_per_year(), Some(Length::from_meters(10)));
    assert_eq!(evolution.get_lifestage_mass_per_year(), Some(Mass::from_kilograms(0)));
    assert_eq!(
        evolution.get_lifestage_luminous_intensity_per_year(),
        Some(Luminosity::from_candela(0))
    );
    assert_eq!(
        evolution.get_lifestage_temperature_per_year(),
        Some(Temperature { millikelvin: 0 })
    );
    assert_eq!(
        StarDataEvolution::none().get_lifestage_radius_per_year(),
        Some(Length::from_meters(0))
    );
}

#[test]
fn the_fate_takes_over_at_the_death() {
    let now = star(Some(1_100), None, None, None);
    let then = star(Some(1_000), None, None, None);
    let lifestage = StarDataLifestageEvolution::new(&now, &then, fx(1.));
    let evolution = StarDataEvolution::new(
        Some(lifestage),
        Some(Time::from_seconds(40)),
        Time::from_seconds(100),
        StarFate::TypeIISupernova,
    );
    assert!(evolution.is_valid());
    let mass = Mass::from_kilograms(1_000);
    assert_eq!(evolution.time_until_death(Time::from_seconds(0)), Some(Time::from_seconds(60)));
    assert_eq!(evolution.time_until_death(Time::from_seconds(61)), Some(Time::from_seconds(-1)));
    // Up to and at the instant of death the star drifts.
    for seconds in [-5, 0, 59, 60] {
        let t = Time::from_seconds(seconds);
        assert!(!evolution.is_dead_at(t));
        assert!(matches!(evolution.apply_to_mass(mass, t), Some(Evolved::Interpolated(_))));
    }
    assert_eq!(
        evolution.apply_to_mass(mass, Time::from_seconds(60)),
        Some(Evolved::Interpolated(Mass::from_kilograms(1_000)))
    );
    // From the next second on its fate is asked, with the time since the death.
    for (seconds, since) in [(61, 1), (100, 40), (60 + SECONDS_PER_YEAR, SECONDS_PER_YEAR)] {
        let t = Time::from_seconds(seconds);
        let dead = Evolved::PostDeath {
            fate: StarFate::TypeIISupernova,
            time_since_death: Time::from_seconds(since),
        };
        assert!(evolution.is_dead_at(t));
        assert_eq!(evolution.apply_to_mass(mass, t), Some(dead));
        let dead = Evolved::PostDeath {
            fate: StarFate::TypeIISupernova,
            time_since_death: Time::from_seconds(since),
        };
        assert_eq!(evolution.apply_to_radius(Length::from_meters(3), t), Some(dead));
        let dead = Evolved::PostDeath {
            fate: StarFate::TypeIISupernova,
            time_since_death: Time::from_seconds(since),
        };
        assert_eq!(evolution.apply_to_luminous_intensity(Luminosity::from_candela(3), t), Some(dead));
        let dead = Evolved::PostDeath {
            fate: StarFate::TypeIISupernova,
            time_since_death: Time::from_seconds(since),
        };
        assert_eq!(
            evolution.apply_to_temperature(Temperature { millikelvin: 3 }, t),
            Some(dead)
        );
    }
}

#[test]
fn a_death_within_a_year_counts_as_a_change() {
    let year = SECONDS_PER_YEAR;
    let evolution = StarDataEvolution::new(
        None,
        Some(Time::from_seconds(0)),
        Time::from_seconds(10 * year),
        StarFate::WhiteDwarf,
    );
    let then = Time::from_seconds(0);
    assert!(!evolution.has_changed(then, Time::from_seconds(0)));
    assert!(!evolution.has_changed(then, Time::from_seconds(9 * year)));
    assert!(evolution.has_changed(then, Time::from_seconds(9 * year + 1)));
    assert!(evolution.has_changed(then, Time::from_seconds(10 * year)));
    assert!(evolution.has_changed(then, Time::from_seconds(11 * year - 1)));
    assert!(!evolution.has_changed(then, Time::from_seconds(11 * year)));
    assert!(!evolution.has_changed(then, Time::from_seconds(5_000 * year)));
}

#[test]
fn a_drifting_star_counts_as_changed_after_a_thousand_years() {
    let year = SECONDS_PER_YEAR;
    let lifestage = StarDataLifestageEvolution::new(&sun_now(), &sun_then(), fx(2.));
    let drifting =
        StarDataEvolution::new(Some(lifestage), None, Time::zero(), StarFate::WhiteDwarf);
    let now = Time::from_seconds(5 * year);
    assert!(!drifting.has_changed(now, now));
    assert!(!drifting.has_changed(Time::from_seconds(1_005 * year), now));
    assert!(drifting.has_changed(Time::from_seconds(1_005 * year + 1), now));
    assert!(!drifting.has_changed(Time::from_seconds(-995 * year), now));
    assert!(drifting.has_changed(Time::from_seconds(-995 * year - 1), now));
    assert!(drifting.has_changed(Time::from_seconds(i128::MIN), Time::from_seconds(i128::MAX)));
    let still = StarDataEvolution::none();
    assert!(!still.has_changed(Time::from_seconds(-995 * year - 1), now));
    assert!(!still.has_changed(Time::from_seconds(i128::MIN), Time::from_seconds(i128::MAX)));
}

#[test]
fn samples_that_cannot_be_told_apart_give_no_drifts() {
    assert!(StarDataLifestageEvolution::can_derive(&sun_now(), &sun_then(), fx(2.)));
    assert!(StarDataLifestageEvolution::can_derive(&sun_now(), &sun_then(), fx(-2.)));
    // Less than a second apart.
    assert!(!StarDataLifestageEvolution::can_derive(&sun_now(), &sun_then(), fx(0.)));
    assert!(!StarDataLifestageEvolution::can_derive(&sun_now(), &sun_then(), fx(1e-8)));
    // Further apart than the numbers reach.
    let far = Fixed::from_nanos(i128::MAX / 1000);
    assert!(!StarDataLifestageEvolution::can_derive(&sun_now(), &sun_then(), far));
    let huge = star(Some(i128::MAX), None, None, None);
    let tiny = star(Some(i128::MIN), None, None, None);
    assert!(!StarDataLifestageEvolution::can_derive(&huge, &tiny, fx(2.)));
    assert!(StarDataLifestageEvolution::can_derive(&huge, &star(None, None, None, None), fx(2.)));
}

#[test]
fn an_age_beyond_the_numbers_is_not_valid() {
    let evolution = StarDataEvolution::new(
        None,
        Some(Time::from_seconds(i128::MIN)),
        Time::from_seconds(1),
        StarFate::WhiteDwarf,
    );
    assert!(!evolution.is_valid());
    let evolution = StarDataEvolution::new(
        None,
        Some(Time::from_seconds(-5)),
        Time::from_seconds(i128::MAX - 5),
        StarFate::WhiteDwarf,
    );
    assert!(evolution.is_valid());
    assert_eq!(evolution.time_until_death(Time::from_seconds(-1)), None);
    assert_eq!(
        evolution.time_until_death(Time::from_seconds(0)),
        Some(Time::from_seconds(i128::MAX))
    );
}
