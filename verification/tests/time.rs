use astro_utils::fixed::Fixed;
use astro_utils::time::Time;
use astro_utils::time::SECONDS_PER_DAY;
use astro_utils::time::SECONDS_PER_HOUR;
use astro_utils::time::SECONDS_PER_MINUTE;
use astro_utils::time::SECONDS_PER_YEAR;

const TEST_ACCURACY: f64 = 1e-5;

fn accuracy() -> Time {
    Time::from_seconds(0)
}

fn fx(x: f64) -> Fixed {
    Fixed::from_nanos((x * 1e9).round() as i128)
}

fn fl(x: Fixed) -> f64 {
    x.as_nanos() as f64 / 1e9
}

#[test]
fn test_seconds() {
    let time = Time::from_seconds(1);
    assert!((time.as_seconds() as f64 - 1.).abs() < TEST_ACCURACY);
}

#[test]
fn test_minutes() {
    let expected = Time::from_seconds(SECONDS_PER_MINUTE);
    let time = Time::from_minutes(fx(1.));
    assert!(time.eq_within(expected, accuracy()));
    assert!((fl(time.as_minutes()) - 1.).abs() < TEST_ACCURACY);
}

#[test]
fn test_hours() {
    let expected = Time::from_seconds(SECONDS_PER_HOUR);
    let time = Time::from_hours(fx(1.));
    assert!(time.eq_within(expected, accuracy()));
    assert!((fl(time.as_hours()) - 1.).abs() < TEST_ACCURACY);
}

#[test]
fn test_days() {
    let expected = Time::from_seconds(SECONDS_PER_DAY);
    let time = Time::from_days(fx(1.));
    assert!(time.eq_within(expected, accuracy()));
    assert!((fl(time.as_days()) - 1.).abs() < TEST_ACCURACY);
}

#[test]
fn test_years() {
    let expected = Time::from_seconds(SECONDS_PER_YEAR);
    let time = Time::from_years(fx(1.));
    assert!(time.eq_within(expected, accuracy()));
    assert!((fl(time.as_years()) - 1.).abs() < TEST_ACCURACY);
}

#[test]
fn time_test_add() {
    let time1 = Time::from_seconds(1);
    let time2 = Time::from_seconds(2);
    let expected = Time::from_seconds(3);
    assert!(expected.eq_within(time1.plus(time2), accuracy()));
}

#[test]
fn time_test_sub() {
    let time1 = Time::from_seconds(1);
    let time2 = Time::from_seconds(2);
    let expected = Time::from_seconds(-1);
    assert!(expected.eq_within(time1.minus(time2), accuracy()));
}

#[test]
fn time_test_display() {
    let time = Time::from_seconds(1);
    assert_eq!(time.to_string(), "1.00 sec");
    let time = Time::from_minutes(fx(1.));
    assert_eq!(time.to_string(), "1.00 min");
    let time = Time::from_hours(fx(1.));
    assert_eq!(time.to_string(), "1.00 hrs");
    let time = Time::from_days(fx(1.));
    assert_eq!(time.to_string(), "1.00 days");
    let time = Time::from_years(fx(1.));
    assert_eq!(time.to_string(), "1.00 yrs");
}

#[test]
fn times_are_written_in_the_greatest_fitting_unit() {
    assert_eq!(Time::from_seconds(59).to_string(), "59.00 sec");
    assert_eq!(Time::from_seconds(60).to_string(), "1.00 min");
    assert_eq!(Time::from_seconds(-90).to_string(), "-1.50 min");
    assert_eq!(Time::from_seconds(3_564).to_string(), "59.40 min");
    assert_eq!(Time::from_seconds(3_565).to_string(), "0.99 hrs");
    assert_eq!(Time::from_seconds(0).to_string(), "0.00 sec");
    assert_eq!(Time::from_years(fx(12.345)).to_string(), "12.35 yrs");
    assert_eq!(Time::from_years(fx(8.8e9)).to_string(), "8800000000.00 yrs");
}

#[test]
fn fractions_of_a_second_are_dropped() {
    assert_eq!(Time::from_minutes(fx(0.51)).as_seconds(), 30);
    assert_eq!(Time::from_minutes(fx(-0.51)).as_seconds(), -30);
    assert_eq!(Time::from_seconds(90).as_minutes(), fx(1.5));
    assert_eq!(Time::from_seconds(-1).as_years(), Fixed::from_nanos(-31));
    assert!(Time::from_seconds(10).eq_within(Time::from_seconds(12), Time::from_seconds(2)));
    assert!(!Time::from_seconds(10).eq_within(Time::from_seconds(13), Time::from_seconds(2)));
}
