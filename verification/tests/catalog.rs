use astro_utils::error::AstroUtilError;
use astro_utils::fixed::Fixed;
use astro_utils::length::Length;
use astro_utils::luminosity::Luminosity;
use astro_utils::mass::Mass;
use astro_utils::mass::KILOGRAMS_PER_SOLAR_MASS;
use astro_utils::mass_grid::closest_mass_index;
use astro_utils::mass_grid::GRID_LEN;
use astro_utils::mass_grid::SORTED_MASSES;
use astro_utils::parsec_data::ParsecData;
use astro_utils::parsec_data::ParsecLine;
use astro_utils::parsec_data::StarState;
use astro_utils::direction::Direction;
use astro_utils::temperature::Temperature;
use astro_utils::time::Time;

const METERS_PER_SUN_RADIUS: i128 = 695_700_000;

fn fx(x: f64) -> Fixed {
    Fixed::from_nanos((x * 1e9).round() as i128)
}

fn fl(x: Fixed) -> f64 {
    x.as_nanos() as f64 / 1e9
}

fn line(mass: f64, age: f64, log_l: f64, log_te: f64, log_r: f64) -> ParsecLine {
    ParsecLine { mass: fx(mass), age: fx(age), log_l: fx(log_l), log_te: fx(log_te), log_r: fx(log_r) }
}

fn row(text: &str) -> Vec<u8> {
    text.as_bytes().to_vec()
}

/// One file of rows for each grid mass: a heading, then rows along the
/// main sequence. The file of one solar mass follows the Sun.
fn sample_files() -> Vec<Vec<Vec<u8>>> {
    let mut files = Vec::new();
    for nanos in SORTED_MASSES.iter() {
        let mass = *nanos as f64 / 1e9;
        let mut rows = vec![row("MODELL MASS AGE LOG_L LOG_TE LOG_R PHASE")];
        if *nanos == 1_000_000_000 {
            rows.push(row("   1   1.00000000   1.0000000E+08  -0.14100   3.75210  10.78930   5.00"));
            rows.push(row("   2   1.00000000   2.0000000E+09  -0.07300   3.75800  10.81150   5.20"));
            rows.push(row("   3   1.00000000   4.5000000E+09  -0.00300   3.76160  10.84100   5.40"));
            rows.push(row("   4   1.00000000   4.7000000E+09   0.00400   3.76190  10.84380   5.41"));
            rows.push(row("   5   1.00000000   8.0000000E+09   0.12500   3.76420  10.89900   5.80"));
        } else {
            let log_l = 3.5 * mass.log10();
            let log_te = 3.7617 + 0.5 * mass.log10();
            let log_r = 10.8424 + 0.8 * mass.log10();
            for age in [1.0e6, 1.0e8, 1.0e9] {
                rows.push(row(&format!(
                    "   1   {:.8}   {:.7E}   {:.5}   {:.5}   {:.5}   5.00",
                    mass, age, log_l, log_te, log_r
                )));
            }
        }
        files.push(rows);
    }
    files
}

#[test]
fn test_caluclate_sun() {
    let mass_accuracy = Mass::from_kilograms(KILOGRAMS_PER_SOLAR_MASS / 100);
    let radius_accuracy = Length::from_meters(METERS_PER_SUN_RADIUS / 10);
    let luminosity_accuracy = 0.05;
    let temperature_accuracy = Temperature::from_kelvin(fx(500.));
    let parsec_data = ParsecData::from_files(&sample_files()).unwrap();
    assert!(parsec_data.has_all_trajectories());
    let mass = Mass::from_kilograms(KILOGRAMS_PER_SOLAR_MASS);
    let age = Time::from_years(fx(4.6e9));
    let current_params = parsec_data.get_params_for_current_mass_and_age(mass, age.as_years());

    let state = StarState {
        luminosity: Luminosity::from_solar_luminosities(fx(10f64.powf(fl(current_params.log_l)))),
        temperature: Temperature::from_kelvin(fx(10f64.powf(fl(current_params.log_te)))),
        radius: Length::from_meters((10f64.powf(fl(current_params.log_r)) / 100.) as i128),
    };
    let calculated_sun = current_params.to_star_at_origin(state);
    let calculated_mass = calculated_sun.get_mass().unwrap();
    let calculated_radius = calculated_sun.get_radius().unwrap();
    let calculated_luminosity = calculated_sun.get_luminosity().unwrap();
    let calculated_temperature = calculated_sun.get_temperature().unwrap();

    let real_mass = Mass::from_solar_masses(fx(1.));
    let real_radius = Length::from_meters(METERS_PER_SUN_RADIUS);
    let real_luminosity = Luminosity::from_solar_luminosities(fx(1.));
    let real_temperature = Temperature::from_kelvin(fx(5778.));

    let magnitude = |l: Luminosity| 4.83 - 2.5 * fl(l.as_solar_luminosities()).log10();
    println!("calculated mass: {:?}, real mass: {:?}", calculated_mass, real_mass);
    println!("calculated radius: {:?}, real radius: {:?}", calculated_radius, real_radius);
    println!(
        "calculated luminosity: {}, real luminosity: {}",
        magnitude(calculated_luminosity),
        magnitude(real_luminosity)
    );
    println!(
        "calculated temperature: {:?}, real temperature: {:?}",
        calculated_temperature, real_temperature
    );
    assert!(calculated_mass.eq_within(real_mass, mass_accuracy));
    assert!(calculated_radius.eq_within(real_radius, radius_accuracy));
    assert!(
        (magnitude(calculated_luminosity) - magnitude(real_luminosity)).abs() < luminosity_accuracy
    );
    assert!(calculated_temperature.eq_within(real_temperature, temperature_accuracy));
}

#[test]
fn masses_are_mapped_to_themselves() {
    const SMALL_OFFSET: f64 = 1e-4;
    for expected in SORTED_MASSES.iter() {
        let expected_mass = *expected as f64 / 1e9;
        let mass = expected_mass;
        let mass_index = ParsecData::get_closest_mass_index(fx(mass));
        let mapped_mass = SORTED_MASSES[mass_index] as f64 / 1e9;
        println!("mass: {}, mapped_mass: {}", mass, mapped_mass);
        assert!((expected_mass - mapped_mass).abs() < SMALL_OFFSET);

        let mass = expected_mass + SMALL_OFFSET;
        let mass_index = ParsecData::get_closest_mass_index(fx(mass));
        let mapped_mass = SORTED_MASSES[mass_index] as f64 / 1e9;
        println!("mass: {}, mapped_mass: {}", mass, mapped_mass);
        assert!((expected_mass - mapped_mass).abs() < SMALL_OFFSET);

        let mass = expected_mass - SMALL_OFFSET;
        let mass_index = ParsecData::get_closest_mass_index(fx(mass));
        let mapped_mass = SORTED_MASSES[mass_index] as f64 / 1e9;
        println!("mass: {}, mapped_mass: {}", mass, mapped_mass);
        assert!((expected_mass - mapped_mass).abs() < SMALL_OFFSET);
    }
}

#[test]
fn every_grid_mass_has_its_own_index() {
    assert_eq!(SORTED_MASSES.len(), GRID_LEN);
    for (i, mass) in SORTED_MASSES.iter().enumerate() {
        assert_eq!(closest_mass_index(Fixed::from_nanos(*mass)), i);
    }
}

#[test]
fn a_mass_between_two_grid_masses_goes_to_the_nearer() {
    // 0.09 and 0.10 solar masses: the midpoint goes to the higher slot.
    assert_eq!(closest_mass_index(Fixed::from_nanos(94_999_999)), 0);
    assert_eq!(closest_mass_index(Fixed::from_nanos(95_000_000)), 1);
    assert_eq!(closest_mass_index(Fixed::from_nanos(95_000_001)), 1);
    // 130 and 200 solar masses.
    assert_eq!(closest_mass_index(fx(164.9)), 95);
    assert_eq!(closest_mass_index(fx(165.0)), 96);
    // Beyond the ends of the grid.
    assert_eq!(closest_mass_index(fx(0.0)), 0);
    assert_eq!(closest_mass_index(fx(-5.0)), 0);
    assert_eq!(closest_mass_index(Fixed::from_nanos(i128::MIN)), 0);
    assert_eq!(closest_mass_index(fx(1000.0)), 99);
    assert_eq!(closest_mass_index(Fixed::from_nanos(i128::MAX)), 99);
}

#[test]
fn the_row_nearest_in_age_is_found() {
    let trajectory = vec![
        line(1., 10., 0., 0., 0.),
        line(1., 20., 1., 0., 0.),
        line(1., 40., 2., 0., 0.),
        line(1., 40., 3., 0., 0.),
    ];
    assert_eq!(ParsecData::get_closest_index(&trajectory, fx(0.)), 0);
    assert_eq!(ParsecData::get_closest_index(&trajectory, fx(14.9)), 0);
    // A tie goes to the first of the rows.
    assert_eq!(ParsecData::get_closest_index(&trajectory, fx(15.)), 0);
    assert_eq!(ParsecData::get_closest_index(&trajectory, fx(15.1)), 1);
    assert_eq!(ParsecData::get_closest_index(&trajectory, fx(30.)), 1);
    assert_eq!(ParsecData::get_closest_index(&trajectory, fx(1e12)), 2);
    assert_eq!(ParsecData::get_closest_params(&trajectory, fx(39.)).log_l, fx(2.));
    assert_eq!(ParsecData::get_closest_index(&trajectory, Fixed::from_nanos(i128::MAX)), 2);
    assert_eq!(ParsecData::get_closest_index(&trajectory, Fixed::from_nanos(i128::MIN)), 0);
}

#[test]
fn rows_need_not_be_ordered_by_age() {
    let trajectory = vec![line(1., 50., 0., 0., 0.), line(1., 5., 1., 0., 0.), line(1., 30., 2., 0., 0.)];
    assert_eq!(ParsecData::get_closest_index(&trajectory, fx(29.)), 2);
    assert_eq!(ParsecData::get_closest_index(&trajectory, fx(6.)), 1);
    assert_eq!(ParsecData::get_closest_index(&trajectory, fx(41.)), 0);
}

#[test]
fn life_expectancy_is_the_age_of_the_last_row() {
    let trajectory = vec![line(1., 10., 0., 0., 0.), line(1., 1234.9, 0., 0., 0.)];
    assert_eq!(ParsecData::get_life_expectancy_in_years(&trajectory), fx(1234.9));
    // The last row counts, not the oldest.
    let trajectory = vec![line(1., 50., 0., 0., 0.), line(1., 5., 0., 0., 0.)];
    assert_eq!(ParsecData::get_life_expectancy_in_years(&trajectory), fx(5.));
    // No age is too great.
    let trajectory = vec![line(1., 1.2e10, 0., 0., 0.)];
    assert_eq!(ParsecData::get_life_expectancy_in_years(&trajectory), fx(1.2e10));
    let trajectory = vec![line(1., -3.5, 0., 0., 0.)];
    assert_eq!(ParsecData::get_life_expectancy_in_years(&trajectory), fx(-3.5));
    let files = sample_files();
    let parsec_data = ParsecData::from_files(&files).unwrap();
    let solar = parsec_data.get_trajectory_via_index(21);
    assert_eq!(ParsecData::get_life_expectancy_in_years(solar), fx(8.0e9));
}

#[test]
fn a_new_catalogue_is_empty() {
    let parsec_data = ParsecData::new();
    for i in 0..GRID_LEN {
        assert!(parsec_data.get_trajectory_via_index(i).is_empty());
    }
    assert!(!parsec_data.has_all_trajectories());
}

#[test]
fn a_file_goes_to_the_slot_of_its_first_mass() {
    let mut parsec_data = ParsecData::new();
    let lines = vec![
        row("# a heading that is no row"),
        row("1 0.50000 1.0E+06 -1.5 3.6 10.1"),
        row("2 0.47000 2.0E+06 -1.4 3.6 10.2"),
        row("3 0.10000 3.0E+06 -1.3 3.6 10.3 and more"),
    ];
    assert_eq!(ParsecData::read_file(&lines, &mut parsec_data), Ok(()));
    let trajectory = parsec_data.get_trajectory_via_index(11);
    assert_eq!(trajectory.len(), 3);
    assert_eq!(trajectory[0], line(0.5, 1.0e6, -1.5, 3.6, 10.1));
    assert_eq!(trajectory[1], line(0.47, 2.0e6, -1.4, 3.6, 10.2));
    assert_eq!(trajectory[2], line(0.1, 3.0e6, -1.3, 3.6, 10.3));
    for i in 0..GRID_LEN {
        if i != 11 {
            assert!(parsec_data.get_trajectory_via_index(i).is_empty());
        }
    }
}

#[test]
fn a_row_that_is_no_number_is_passed_over() {
    let mut parsec_data = ParsecData::new();
    let mut mass_position = None;
    // Before the slot is known, a row with a mass that is no number does nothing.
    assert_eq!(
        ParsecData::read_line(b"MODELL MASS", &mut mass_position, &mut parsec_data),
        Ok(())
    );
    assert_eq!(mass_position, None);
    assert_eq!(
        ParsecData::read_line(b"1 1.0 1e9 0.0 3.76 10.84", &mut mass_position, &mut parsec_data),
        Ok(())
    );
    assert_eq!(mass_position, Some(21));
    assert_eq!(parsec_data.get_trajectory_via_index(21).len(), 1);
    // With the slot known, a row with a column that is no number is passed over.
    assert_eq!(
        ParsecData::read_line(b"2 1.0 abc 0.0 3.76 10.84", &mut mass_position, &mut parsec_data),
        Ok(())
    );
    assert_eq!(
        ParsecData::read_line(b"2 x 2e9 0.0 3.76 10.84", &mut mass_position, &mut parsec_data),
        Ok(())
    );
    assert_eq!(parsec_data.get_trajectory_via_index(21).len(), 1);
    assert_eq!(mass_position, Some(21));
}

#[test]
fn a_row_that_lacks_a_column_is_an_error() {
    let mut parsec_data = ParsecData::new();
    let mut mass_position = None;
    assert_eq!(
        ParsecData::read_line(b"", &mut mass_position, &mut parsec_data),
        Err(AstroUtilError::ParsecDataNotAvailable)
    );
    assert_eq!(
        ParsecData::read_line(b"  1  ", &mut mass_position, &mut parsec_data),
        Err(AstroUtilError::ParsecDataNotAvailable)
    );
    // Two columns are enough while the slot is unknown and stays so.
    assert_eq!(ParsecData::read_line(b"1 x", &mut mass_position, &mut parsec_data), Ok(()));
    // The mass tells the slot, and then the other columns are missed.
    assert_eq!(
        ParsecData::read_line(b"1 2.0 1e9 0.0 3.76", &mut mass_position, &mut parsec_data),
        Err(AstroUtilError::ParsecDataNotAvailable)
    );
    assert_eq!(mass_position, Some(41));
    assert!(parsec_data.get_trajectory_via_index(41).is_empty());
}

#[test]
fn a_slot_beyond_the_grid_is_an_error() {
    let mut parsec_data = ParsecData::new();
    let mut mass_position = Some(100);
    assert_eq!(
        ParsecData::read_line(b"1 1.0 1e9 0.0 3.76 10.84", &mut mass_position, &mut parsec_data),
        Err(AstroUtilError::ParsecDataNotAvailable)
    );
    assert_eq!(
        ParsecData::read_line(b"1 1.0 nope 0.0 3.76 10.84", &mut mass_position, &mut parsec_data),
        Ok(())
    );
}

#[test]
fn reading_stops_at_the_first_broken_row() {
    let mut parsec_data = ParsecData::new();
    let lines = vec![
        row("1 3.0 1e6 2.0 4.1 11.1"),
        row("2 3.0 2e6"),
        row("3 3.0 3e6 2.0 4.1 11.1"),
    ];
    assert_eq!(
        ParsecData::read_file(&lines, &mut parsec_data),
        Err(AstroUtilError::ParsecDataNotAvailable)
    );
    assert_eq!(parsec_data.get_trajectory_via_index(51).len(), 1);
    let files = vec![lines];
    assert!(ParsecData::from_files(&files).is_err());
}

#[test]
fn the_catalogue_holds_the_rows_of_all_files() {
    let parsec_data = ParsecData::from_files(&sample_files()).unwrap();
    assert!(parsec_data.has_all_trajectories());
    for i in 0..GRID_LEN {
        let trajectory = parsec_data.get_trajectory_via_index(i);
        assert_eq!(trajectory.len(), if i == 21 { 5 } else { 3 });
        for line in trajectory.iter() {
            assert_eq!(closest_mass_index(line.mass), i);
        }
    }
    assert_eq!(ParsecData::from_files(&Vec::new()).unwrap().get_trajectory_via_index(0).len(), 0);
}

#[test]
fn a_star_heavier_than_its_row_moves_to_a_heavier_track() {
    let parsec_data = ParsecData::from_files(&sample_files()).unwrap();
    // The Sun is as heavy as the rows of the track nearest to it, and stays there.
    let sun = Mass::from_kilograms(KILOGRAMS_PER_SOLAR_MASS);
    let params = parsec_data.get_params_for_current_mass_and_age(sun, fx(4.6e9));
    assert_eq!(*params, line(1., 4.5e9, -0.003, 3.7616, 10.841));
    // A star of 1.02 solar masses is nearest to the same track, but heavier
    // than its rows: the next track, of 1.05 solar masses, is taken.
    let heavier = Mass::from_solar_masses(fx(1.02));
    let params = parsec_data.get_params_for_current_mass_and_age(heavier, fx(4.6e9));
    assert_eq!(params.mass, fx(1.05));
    assert_eq!(params.age, fx(1.0e9));
    // Beyond the heaviest track there is nowhere to move to.
    let giant = Mass::from_solar_masses(fx(400.));
    let params = parsec_data.get_params_for_current_mass_and_age(giant, fx(1.0e6));
    assert_eq!(params.mass, fx(350.));
    assert_eq!(params.age, fx(1.0e6));
}

#[test]
fn a_row_and_its_state_make_a_star_at_the_origin() {
    let row = line(0.5, 2.0e9, -1.4, 3.58, 10.5);
    let state = StarState {
        luminosity: Luminosity::from_solar_luminosities(fx(0.04)),
        temperature: Temperature::from_kelvin(fx(3800.)),
        radius: Length::from_meters(316_000_000),
    };
    let star = row.to_star_at_origin(state);
    assert_eq!(star.get_name(), "");
    assert_eq!(star.mass, Some(Mass::from_kilograms(KILOGRAMS_PER_SOLAR_MASS / 2)));
    assert_eq!(star.age, Some(Time::from_seconds(2_000_000_000 * 31_557_600)));
    assert_eq!(star.luminosity, Some(state.luminosity));
    assert_eq!(star.temperature, Some(state.temperature));
    assert_eq!(star.radius, Some(state.radius));
    assert_eq!(star.distance, Some(Length::zero()));
    assert_eq!(star.direction_in_ecliptic, Direction::z_axis());
    // A mass or an age beyond the numbers is left out.
    let row = ParsecLine { mass: Fixed::from_nanos(i128::MAX), ..row };
    assert_eq!(row.get_mass(), None);
    assert_eq!(row.to_star_at_origin(state).mass, None);
    let row = ParsecLine { age: Fixed::from_nanos(i128::MIN), ..row };
    assert_eq!(row.get_age(), None);
    assert_eq!(row.to_star_at_origin(state).age, None);
    assert_eq!(line(1., 0.5, 0., 0., 0.).get_age(), Some(Time::from_seconds(15_778_800)));
}
