//! Quantities written out as text with two decimal places.

use vstd::prelude::*;
use vstd::string::StringExecFns;

verus! {

/// The character of the digit `d`.
pub open spec fn digit_char(d: int) -> char {
    if d == 0 {
        '0'
    } else if d == 1 {
        '1'
    } else if d == 2 {
        '2'
    } else if d == 3 {
        '3'
    } else if d == 4 {
        '4'
    } else if d == 5 {
        '5'
    } else if d == 6 {
        '6'
    } else if d == 7 {
        '7'
    } else if d == 8 {
        '8'
    } else {
        '9'
    }
}

/// The decimal digits of `n`, the first of them not zero unless `n` is.
pub open spec fn decimal_digits(n: nat) -> Seq<char>
    decreases n,
{
    if n < 10 {
        seq![digit_char(n as int)]
    } else {
        decimal_digits(n / 10) + seq![digit_char((n % 10) as int)]
    }
}

/// `amount` over `per_unit` in hundredths, rounded to the nearest, a half
/// upwards.
pub open spec fn rounded_hundredths(amount: nat, per_unit: nat) -> nat {
    ((amount * 200 + per_unit) / (2 * per_unit)) as nat
}

/// A number of `hundredths`, written with two decimal places and, where
/// `negative` holds, a minus sign in front.
pub open spec fn hundredths_text(negative: bool, hundredths: nat) -> Seq<char> {
    (if negative {
        seq!['-']
    } else {
        Seq::<char>::empty()
    }) + decimal_digits(hundredths / 100) + seq![
        '.',
        digit_char(((hundredths / 10) % 10) as int),
        digit_char((hundredths % 10) as int),
    ]
}

/// The text of the digit `d`.
fn digit_str(d: u128) -> (r: &'static str)
    requires
        d < 10,
    ensures
        r@ == seq![digit_char(d as int)],
{
    proof {
        reveal_strlit("0");
        reveal_strlit("1");
        reveal_strlit("2");
        reveal_strlit("3");
        reveal_strlit("4");
        reveal_strlit("5");
        reveal_strlit("6");
        reveal_strlit("7");
        reveal_strlit("8");
        reveal_strlit("9");
    }
    let r: &'static str = if d == 0 {
        "0"
    } else if d == 1 {
        "1"
    } else if d == 2 {
        "2"
    } else if d == 3 {
        "3"
    } else if d == 4 {
        "4"
    } else if d == 5 {
        "5"
    } else if d == 6 {
        "6"
    } else if d == 7 {
        "7"
    } else if d == 8 {
        "8"
    } else {
        "9"
    };
    assert(r@ =~= seq![digit_char(d as int)]);
    r
}

/// Appends the decimal digits of `n` to `text`.
fn append_decimal(text: &mut String, n: u128)
    ensures
        final(text)@ == old(text)@ + decimal_digits(n as nat),
    decreases n,
{
    if n >= 10 {
        append_decimal(text, n / 10);
    }
    text.append(digit_str(n % 10));
    assert(text@ =~= old(text)@ + decimal_digits(n as nat));
}

/// The text of `amount` over `per_unit` with two decimal places, a minus
/// sign in front where `negative` holds, then a blank and `unit`.
pub fn format_ratio(negative: bool, amount: u128, per_unit: u128, unit: &str) -> (r: String)
    requires
        per_unit > 0,
        amount * 200 + per_unit <= u128::MAX,
        2 * per_unit <= u128::MAX,
    ensures
        r@ == hundredths_text(negative, rounded_hundredths(amount as nat, per_unit as nat)) + seq![
            ' ',
        ] + unit@,
{
    let hundredths: u128 = (amount * 200 + per_unit) / (2 * per_unit);
    let mut text: String = String::new();
    proof {
        reveal_strlit("-");
        reveal_strlit(".");
        reveal_strlit(" ");
    }
    if negative {
        text.append("-");
    }
    append_decimal(&mut text, hundredths / 100);
    text.append(".");
    text.append(digit_str((hundredths / 10) % 10));
    text.append(digit_str(hundredths % 10));
    text.append(" ");
    text.append(unit);
    assert(text@ =~= hundredths_text(negative, rounded_hundredths(amount as nat, per_unit as nat))
        + seq![' '] + unit@);
    text
}

} // verus!
