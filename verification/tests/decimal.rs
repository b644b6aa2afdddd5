use astro_utils::decimal::parse_number;
use astro_utils::decimal::read_written;
use astro_utils::decimal::split_whitespace;
use astro_utils::decimal::value_of_written;
use astro_utils::decimal::Written;
use astro_utils::fixed::Fixed;
use astro_utils::fixed::TABLE_LIMIT;

fn number(text: &str) -> Option<i128> {
    parse_number(text.as_bytes()).map(|f| f.as_nanos())
}

fn words(text: &str) -> Vec<String> {
    split_whitespace(text.as_bytes())
        .into_iter()
        .map(|w| String::from_utf8(w).unwrap())
        .collect()
}

#[test]
fn words_are_the_runs_between_blanks() {
    assert_eq!(words("a b"), vec!["a", "b"]);
    assert_eq!(words("  1.5\t-2e3 \r\n"), vec!["1.5", "-2e3"]);
    assert_eq!(words("one"), vec!["one"]);
    assert_eq!(words("x\u{b}y\u{c}z"), vec!["x", "y", "z"]);
    assert!(words("").is_empty());
    assert!(words(" \t \n").is_empty());
    let many = words(" 1 1.00000 4.6E+09 0.0 3.7617 10.8424 trailing text ");
    assert_eq!(many.len(), 8);
    assert_eq!(many[5], "10.8424");
}

#[test]
fn plain_numbers_are_read_in_billionths() {
    assert_eq!(number("0"), Some(0));
    assert_eq!(number("1"), Some(1_000_000_000));
    assert_eq!(number("1.5"), Some(1_500_000_000));
    assert_eq!(number("-2.25"), Some(-2_250_000_000));
    assert_eq!(number("+3"), Some(3_000_000_000));
    assert_eq!(number("007.50"), Some(7_500_000_000));
    assert_eq!(number("1."), Some(1_000_000_000));
    assert_eq!(number(".5"), Some(500_000_000));
    assert_eq!(number("-.5"), Some(-500_000_000));
    assert_eq!(number("10.842400000"), Some(10_842_400_000));
    assert_eq!(number("-0"), Some(0));
}

#[test]
fn exponents_move_the_point() {
    assert_eq!(number("4.6E+09"), Some(4_600_000_000_000_000_000));
    assert_eq!(number("4.6e9"), Some(4_600_000_000_000_000_000));
    assert_eq!(number("-2.5E+03"), Some(-2_500_000_000_000));
    assert_eq!(number("1e-3"), Some(1_000_000));
    assert_eq!(number("1E-9"), Some(1));
    assert_eq!(number("1.23456789E+00"), Some(1_234_567_890));
    assert_eq!(number("125e-2"), Some(1_250_000_000));
    assert_eq!(number("0e9999"), Some(0));
    assert_eq!(number("5e-9999"), Some(0));
}

#[test]
fn what_lies_beyond_the_ninth_place_is_dropped() {
    assert_eq!(number("0.1234567899"), Some(123_456_789));
    assert_eq!(number("-0.1234567899"), Some(-123_456_789));
    assert_eq!(number("1E-10"), Some(0));
    assert_eq!(number("9.9999999999"), Some(9_999_999_999));
    assert_eq!(number("19e-10"), Some(1));
}

#[test]
fn what_is_no_number_is_refused() {
    for text in [
        "", "+", "-", ".", "-.", "e5", "E", "1e", "1e+", "1e-", "1.5x", "x1.5", "1..5", "1.5.2",
        "1e5.5", "1e5e5", "--1", "+-1", "1 ", " 1", "1,5", "inf", "NaN", "MASS", "0x10", "1_000",
        "1e+-5",
    ] {
        assert_eq!(number(text), None, "{:?}", text);
    }
}

#[test]
fn the_range_of_tabulated_values_is_kept() {
    assert_eq!(number("1e21"), Some(TABLE_LIMIT));
    assert_eq!(number("-1e21"), Some(-TABLE_LIMIT));
    assert_eq!(number("1000000000000000000000"), Some(TABLE_LIMIT));
    assert_eq!(number("1000000000000000000001"), None);
    assert_eq!(number("1.000000001e21"), None);
    assert_eq!(number("1e22"), None);
    assert_eq!(number("1e9999"), None);
    assert_eq!(number("999999999999999999999.999999999"), Some(TABLE_LIMIT - 1));
}

#[test]
fn long_numbers_are_refused() {
    // Thirty digits in the mantissa are read, thirty-one are not.
    assert_eq!(number("0.00000000000000000000000000001"), Some(0));
    assert_eq!(number("0.000000000000000000000000000001"), None);
    assert_eq!(number("000000000000000000000000000001"), Some(1_000_000_000));
    assert_eq!(number("0000000000000000000000000000001"), None);
    assert_eq!(number("100000000000000000000000000000e-20"), Some(1_000_000_000_000_000_000));
    // Four digits in the exponent are read, five are not.
    assert_eq!(number("1e0009"), Some(1_000_000_000_000_000_000));
    assert_eq!(number("1e00009"), None);
}

#[test]
fn a_number_is_read_as_it_is_written() {
    assert_eq!(
        read_written(b"-12.345e+6"),
        Some(Written { negative: true, mantissa: 12_345, fraction_digits: 3, exponent: 6 })
    );
    assert_eq!(
        read_written(b"7"),
        Some(Written { negative: false, mantissa: 7, fraction_digits: 0, exponent: 0 })
    );
    assert_eq!(
        read_written(b".25E-12"),
        Some(Written { negative: false, mantissa: 25, fraction_digits: 2, exponent: -12 })
    );
    assert_eq!(read_written(b"1e99999"), None);
    assert_eq!(read_written(b"e"), None);
    let written = Written { negative: true, mantissa: 12_345, fraction_digits: 3, exponent: 6 };
    assert_eq!(value_of_written(written), Some(Fixed::from_nanos(-12_345_000_000_000_000)));
    let written = Written { negative: false, mantissa: 1, fraction_digits: 0, exponent: 22 };
    assert_eq!(value_of_written(written), None);
}
