//! Decimal numbers as they stand in a tabulated text file: whitespace
//! separated words, each read as a fixed-point scalar.

use vstd::prelude::*;
use crate::fixed::Fixed;
use crate::fixed::TABLE_LIMIT;

verus! {

/// Most digits that the mantissa of a number may have.
pub const MAX_MANTISSA_DIGITS: usize = 30;

/// Most digits that the exponent of a number may have.
pub const MAX_EXPONENT_DIGITS: usize = 4;

/// Decimal places that a scalar keeps.
pub const DECIMAL_PLACES: usize = 9;

/// Ten to the power of `n`.
pub open spec fn pow10(n: nat) -> int
    decreases n,
{
    if n == 0 {
        1
    } else {
        10 * pow10((n - 1) as nat)
    }
}

/// `true` for a blank: a space, a tab, a line feed, a vertical tab, a form
/// feed or a carriage return.
pub open spec fn is_space(b: u8) -> bool {
    b == 32 || 9 <= b <= 13
}

/// `true` for a decimal digit.
pub open spec fn is_digit(b: u8) -> bool {
    48 <= b <= 57
}

/// `true` when byte `i` of `t` exists and equals `b`.
pub open spec fn has_byte(t: Seq<u8>, i: int, b: u8) -> bool {
    0 <= i < t.len() && t[i] == b
}

/// The words of `s` from byte `i` on, where a word that began at `start`
/// is under way (`start == i` when none is).
pub open spec fn words_from(s: Seq<u8>, i: int, start: int) -> Seq<Seq<u8>>
    decreases s.len() - i,
{
    if i >= s.len() || i < 0 {
        if 0 <= start < i {
            seq![s.subrange(start, s.len() as int)]
        } else {
            Seq::empty()
        }
    } else if is_space(s[i]) {
        if 0 <= start < i {
            seq![s.subrange(start, i)] + words_from(s, i + 1, i + 1)
        } else {
            words_from(s, i + 1, i + 1)
        }
    } else {
        words_from(s, i + 1, start)
    }
}

/// The words of `s`: its longest runs of bytes that are not blanks.
pub open spec fn words(s: Seq<u8>) -> Seq<Seq<u8>> {
    words_from(s, 0, 0)
}

/// The byte sequences that the vectors of `v` hold.
pub open spec fn word_views(v: Seq<Vec<u8>>) -> Seq<Seq<u8>> {
    Seq::new(v.len(), |i: int| v[i]@)
}

/// The index after the run of digits that begins at `i`.
pub open spec fn digits_end(t: Seq<u8>, i: int) -> int
    decreases t.len() - i,
{
    if 0 <= i < t.len() && is_digit(t[i]) {
        digits_end(t, i + 1)
    } else {
        i
    }
}

/// The number that the digits of `t` from `from` up to `to` spell.
pub open spec fn digits_value(t: Seq<u8>, from: int, to: int) -> int
    decreases to - from,
{
    if to <= from {
        0
    } else {
        digits_value(t, from, to - 1) * 10 + (t[to - 1] - 48)
    }
}

/// 1 when a sign stands at `i`, else 0.
pub open spec fn sign_len(t: Seq<u8>, i: int) -> int {
    if has_byte(t, i, 43) || has_byte(t, i, 45) {
        1
    } else {
        0
    }
}

/// A number as it is written: sign, digits, and where the point stands.
#[derive(Clone, Copy, Debug, PartialEq, Eq, Structural)]
pub struct Written {
    /// A minus sign stands in front.
    pub negative: bool,
    /// The digits before and after the point, read as one whole number.
    pub mantissa: i128,
    /// How many of those digits stand after the point.
    pub fraction_digits: usize,
    /// The power of ten that the exponent names.
    pub exponent: i128,
}

/// Where the digits before the point begin.
pub open spec fn int_from(t: Seq<u8>) -> int {
    sign_len(t, 0)
}

/// Where the digits before the point end.
pub open spec fn int_to(t: Seq<u8>) -> int {
    digits_end(t, int_from(t))
}

/// Where the digits after the point begin.
pub open spec fn frac_from(t: Seq<u8>) -> int {
    if has_byte(t, int_to(t), 46) {
        int_to(t) + 1
    } else {
        int_to(t)
    }
}

/// Where the digits after the point end.
pub open spec fn frac_to(t: Seq<u8>) -> int {
    digits_end(t, frac_from(t))
}

/// `true` when an exponent follows the mantissa.
pub open spec fn has_exponent(t: Seq<u8>) -> bool {
    has_byte(t, frac_to(t), 101) || has_byte(t, frac_to(t), 69)
}

/// Where the digits of the exponent begin.
pub open spec fn exp_from(t: Seq<u8>) -> int {
    frac_to(t) + 1 + sign_len(t, frac_to(t) + 1)
}

/// Where the digits of the exponent end.
pub open spec fn exp_to(t: Seq<u8>) -> int {
    digits_end(t, exp_from(t))
}

/// `true` when `t` is written as a number: an optional sign, digits with
/// an optional point among them, and an optional exponent (`e` or `E`, an
/// optional sign, and digits). The mantissa has between one and thirty
/// digits, the exponent between one and four.
pub open spec fn is_number(t: Seq<u8>) -> bool {
    let digits = (int_to(t) - int_from(t)) + (frac_to(t) - frac_from(t));
    &&& 1 <= digits <= MAX_MANTISSA_DIGITS
    &&& if has_exponent(t) {
        1 <= exp_to(t) - exp_from(t) <= MAX_EXPONENT_DIGITS && exp_to(t) == t.len()
    } else {
        frac_to(t) == t.len()
    }
}

/// The mantissa of the number `t`: all its digits read as one whole number.
pub open spec fn mantissa_of(t: Seq<u8>) -> int {
    digits_value(t, int_from(t), int_to(t)) * pow10((frac_to(t) - frac_from(t)) as nat)
        + digits_value(t, frac_from(t), frac_to(t))
}

/// The exponent of the number `t`, zero where it has none.
pub open spec fn exponent_of(t: Seq<u8>) -> int {
    if !has_exponent(t) {
        0
    } else if has_byte(t, frac_to(t) + 1, 45) {
        -digits_value(t, exp_from(t), exp_to(t))
    } else {
        digits_value(t, exp_from(t), exp_to(t))
    }
}

/// The value in billionths of a number so written, rounded towards zero,
/// or `None` where it exceeds the range of tabulated values.
pub open spec fn written_value(negative: bool, mantissa: int, fraction_digits: int, exponent: int)
    -> Option<int> {
    let shift = exponent - fraction_digits + DECIMAL_PLACES;
    let magnitude = if shift >= 0 {
        mantissa * pow10(shift as nat)
    } else {
        mantissa / pow10((-shift) as nat)
    };
    if magnitude > TABLE_LIMIT {
        None
    } else if negative {
        Some(-magnitude)
    } else {
        Some(magnitude)
    }
}

/// The value of the number that `t` spells, in billionths and rounded
/// towards zero, or `None` where `t` spells none or one beyond the range of
/// tabulated values.
pub open spec fn parse_decimal(t: Seq<u8>) -> Option<int> {
    if is_number(t) {
        written_value(
            has_byte(t, 0, 45),
            mantissa_of(t),
            frac_to(t) - frac_from(t),
            exponent_of(t),
        )
    } else {
        None
    }
}

/// Powers of ten are positive and grow with the exponent.
pub proof fn lemma_pow10_grows(a: nat, b: nat)
    requires
        a <= b,
    ensures
        0 < pow10(a) <= pow10(b),
    decreases b,
{
    if b == 0 {
    } else if a == b {
        lemma_pow10_grows((a - 1) as nat, (b - 1) as nat);
    } else {
        lemma_pow10_grows(a, (b - 1) as nat);
    }
}

/// Ten to the thirtieth is the limit of tabulated values.
pub proof fn lemma_pow10_limit()
    ensures
        pow10(4) == 10_000,
        pow10(30) == TABLE_LIMIT,
{
    assert(pow10(4) == 10_000) by {
        reveal_with_fuel(pow10, 5);
    }
    assert(pow10(10) == 10_000_000_000) by {
        reveal_with_fuel(pow10, 11);
    }
    assert(pow10(20) == 10_000_000_000 * pow10(10)) by {
        reveal_with_fuel(pow10, 11);
    }
    assert(pow10(30) == 10_000_000_000 * pow10(20)) by {
        reveal_with_fuel(pow10, 11);
    }
}

/// Tells whether `b` is a blank.
pub fn is_space_byte(b: u8) -> (r: bool)
    ensures
        r == is_space(b),
{
    b == 32 || (9 <= b && b <= 13)
}

/// Tells whether `b` is a decimal digit.
pub fn is_digit_byte(b: u8) -> (r: bool)
    ensures
        r == is_digit(b),
{
    48 <= b && b <= 57
}

/// The words of `line`: its longest runs of bytes that are not blanks.
pub fn split_whitespace(line: &[u8]) -> (out: Vec<Vec<u8>>)
    ensures
        word_views(out@) == words(line@),
{
    let mut out: Vec<Vec<u8>> = Vec::new();
    let mut current: Vec<u8> = Vec::new();
    let mut i: usize = 0;
    let ghost mut start: int = 0;
    assert(word_views(out@) =~= Seq::<Seq<u8>>::empty());
    while i < line.len()
        invariant
            0 <= start <= i <= line@.len(),
            current@ == line@.subrange(start, i as int),
            words(line@) == word_views(out@) + words_from(line@, i as int, start),
        decreases line@.len() - i,
    {
        let b: u8 = line[i];
        let ghost before = word_views(out@);
        if is_space_byte(b) {
            if current.len() > 0 {
                out.push(current);
                current = Vec::new();
                assert(word_views(out@) =~= before + seq![line@.subrange(start, i as int)]);
            }
            proof {
                start = i + 1;
            }
        } else {
            current.push(b);
        }
        i += 1;
        proof {
            assert(current@ =~= line@.subrange(start, i as int));
            assert(words(line@) =~= word_views(out@) + words_from(line@, i as int, start));
        }
    }
    let ghost before = word_views(out@);
    if current.len() > 0 {
        out.push(current);
        assert(word_views(out@) =~= before + seq![line@.subrange(start, line@.len() as int)]);
    } else {
        assert(word_views(out@) =~= before + Seq::<Seq<u8>>::empty());
    }
    out
}

/// Reads the run of digits of `t` that begins at `from`, after `used`
/// digits that gave `start`. Gives the index after the run and, where the
/// digits read so far are no more than the mantissa may have, their value.
fn read_digits(t: &[u8], from: usize, start: i128, used: usize) -> (r: (usize, i128))
    requires
        from <= t@.len(),
        used <= MAX_MANTISSA_DIGITS,
        0 <= start < pow10(used as nat),
    ensures
        r.0 == digits_end(t@, from as int),
        from <= r.0 <= t@.len(),
        used + (r.0 - from) <= MAX_MANTISSA_DIGITS ==> r.1 == start * pow10((r.0 - from) as nat)
            + digits_value(t@, from as int, r.0 as int),
        used + (r.0 - from) <= MAX_MANTISSA_DIGITS ==> 0 <= r.1 < pow10(
            (used + r.0 - from) as nat,
        ),
{
    let mut i: usize = from;
    let mut acc: i128 = start;
    proof {
        lemma_pow10_limit();
        lemma_pow10_grows(used as nat, 30);
        assert(start * pow10(0) == start);
    }
    while i < t.len() && is_digit_byte(t[i])
        invariant
            from <= i <= t@.len(),
            used <= MAX_MANTISSA_DIGITS,
            digits_end(t@, from as int) == digits_end(t@, i as int),
            0 <= acc < TABLE_LIMIT,
            used + (i - from) <= MAX_MANTISSA_DIGITS ==> acc == start * pow10((i - from) as nat)
                + digits_value(t@, from as int, i as int),
            used + (i - from) <= MAX_MANTISSA_DIGITS ==> acc < pow10((used + i - from) as nat),
        decreases t@.len() - i,
    {
        if i - from < MAX_MANTISSA_DIGITS - used {
            let d: i128 = (t[i] - 48) as i128;
            proof {
                let n = (i - from) as nat;
                let u = (used + i - from) as nat;
                lemma_pow10_limit();
                lemma_pow10_grows(u + 1, 30);
                assert(pow10(u + 1) == 10 * pow10(u));
                assert(pow10(n + 1) == 10 * pow10(n));
                assert((start * pow10(n)) * 10 == start * (10 * pow10(n))) by (nonlinear_arith);
            }
            acc = acc * 10 + d;
        }
        i += 1;
    }
    (i, acc)
}

/// Multiplies `m` by ten `shift` times, where the product stays within the
/// range of tabulated values.
fn scale_up(m: i128, shift: usize) -> (r: Option<i128>)
    requires
        0 <= m <= TABLE_LIMIT,
    ensures
        r.is_some() == (m * pow10(shift as nat) <= TABLE_LIMIT),
        r.is_some() ==> r.unwrap() == m * pow10(shift as nat),
        r.is_some() ==> 0 <= r.unwrap() <= TABLE_LIMIT,
{
    let mut v: i128 = m;
    let mut k: usize = 0;
    assert(m * pow10(0) == m);
    while k < shift
        invariant
            k <= shift,
            0 <= m,
            0 <= v <= TABLE_LIMIT,
            v == m * pow10(k as nat),
        decreases shift - k,
    {
        let next: i128 = v * 10;
        proof {
            assert(pow10((k + 1) as nat) == 10 * pow10(k as nat));
            assert((m * pow10(k as nat)) * 10 == m * (10 * pow10(k as nat))) by (nonlinear_arith);
        }
        if next > TABLE_LIMIT {
            proof {
                lemma_pow10_grows((k + 1) as nat, shift as nat);
                let a = pow10((k + 1) as nat);
                let b = pow10(shift as nat);
                assert(m * a <= m * b) by (nonlinear_arith)
                    requires
                        0 <= m,
                        a <= b,
                ;
            }
            return None;
        }
        v = next;
        k += 1;
    }
    Some(v)
}

/// Divides `m` by ten `shift` times, dropping the remainder each time.
fn scale_down(m: i128, shift: usize) -> (r: i128)
    requires
        0 <= m,
    ensures
        r == (m as int) / pow10(shift as nat),
        0 <= r <= m,
{
    let mut v: i128 = m;
    let mut k: usize = 0;
    while k < shift
        invariant
            k <= shift,
            0 <= v <= m,
            v == (m as int) / pow10(k as nat),
        decreases shift - k,
    {
        proof {
            lemma_pow10_grows(0, k as nat);
            assert(pow10((k + 1) as nat) == pow10(k as nat) * 10);
            vstd::arithmetic::div_mod::lemma_div_denominator(m as int, pow10(k as nat), 10);
        }
        v = v / 10;
        k += 1;
    }
    v
}

/// Reads how the number `t` is written, or `None` where `t` is no number.
pub fn read_written(t: &[u8]) -> (r: Option<Written>)
    ensures
        r.is_some() == is_number(t@),
        r.is_some() ==> {
            let w = r.unwrap();
            &&& w.negative == has_byte(t@, 0, 45)
            &&& w.mantissa == mantissa_of(t@)
            &&& w.fraction_digits == frac_to(t@) - frac_from(t@)
            &&& w.exponent == exponent_of(t@)
            &&& 0 <= w.mantissa < TABLE_LIMIT
            &&& w.fraction_digits <= MAX_MANTISSA_DIGITS
            &&& -10_000 < w.exponent < 10_000
        },
{
    let len: usize = t.len();
    let negative: bool = len > 0 && t[0] == 45;
    let int_start: usize = if len > 0 && (t[0] == 43 || t[0] == 45) {
        1
    } else {
        0
    };
    let (int_end, int_value) = read_digits(t, int_start, 0, 0);
    let int_len: usize = int_end - int_start;
    if int_len > MAX_MANTISSA_DIGITS {
        proof {
            lemma_digits_end_bounds(t@, frac_from(t@));
        }
        return None;
    }
    let frac_start: usize = if int_end < len && t[int_end] == 46 {
        int_end + 1
    } else {
        int_end
    };
    proof {
        lemma_pow10_grows(0, int_len as nat);
        assert(0 * pow10(int_len as nat) == 0);
    }
    let (frac_end, mantissa) = read_digits(t, frac_start, int_value, int_len);
    let frac_len: usize = frac_end - frac_start;
    if int_len + frac_len < 1 || int_len + frac_len > MAX_MANTISSA_DIGITS {
        return None;
    }
    proof {
        lemma_pow10_limit();
        lemma_pow10_grows((int_len + frac_len) as nat, 30);
    }
    let has_exp: bool = frac_end < len && (t[frac_end] == 101 || t[frac_end] == 69);
    if !has_exp {
        if frac_end != len {
            return None;
        }
        return Some(Written { negative, mantissa, fraction_digits: frac_len, exponent: 0 });
    }
    let sign_at: usize = frac_end + 1;
    let exponent_negative: bool = sign_at < len && t[sign_at] == 45;
    let exp_start: usize = if sign_at < len && (t[sign_at] == 43 || t[sign_at] == 45) {
        sign_at + 1
    } else {
        sign_at
    };
    let (exp_end, exp_value) = read_digits(t, exp_start, 0, 0);
    let exp_len: usize = exp_end - exp_start;
    if exp_len < 1 || exp_len > MAX_EXPONENT_DIGITS || exp_end != len {
        return None;
    }
    proof {
        lemma_pow10_grows(exp_len as nat, 4);
        assert(0 * pow10(exp_len as nat) == 0);
    }
    let exponent: i128 = if exponent_negative {
        -exp_value
    } else {
        exp_value
    };
    Some(Written { negative, mantissa, fraction_digits: frac_len, exponent })
}

/// The value in billionths of a number so written, rounded towards zero,
/// or `None` where it exceeds the range of tabulated values.
pub fn value_of_written(w: Written) -> (r: Option<Fixed>)
    requires
        0 <= w.mantissa <= TABLE_LIMIT,
        w.fraction_digits <= MAX_MANTISSA_DIGITS,
        -10_000 < w.exponent < 10_000,
    ensures
        r.is_some() == written_value(
            w.negative,
            w.mantissa as int,
            w.fraction_digits as int,
            w.exponent as int,
        ).is_some(),
        r.is_some() ==> r.unwrap()@ == written_value(
            w.negative,
            w.mantissa as int,
            w.fraction_digits as int,
            w.exponent as int,
        ).unwrap(),
{
    let shift: i128 = w.exponent - (w.fraction_digits as i128) + (DECIMAL_PLACES as i128);
    let magnitude: i128 = if shift >= 0 {
        let up: usize = shift as usize;
        assert(up as nat == shift as nat);
        match scale_up(w.mantissa, up) {
            Some(v) => v,
            None => {
                return None;
            },
        }
    } else {
        let down: usize = (-shift) as usize;
        assert(down as nat == (-shift) as nat);
        scale_down(w.mantissa, down)
    };
    assert(0 <= magnitude <= TABLE_LIMIT);
    if w.negative {
        Some(Fixed { nanos: -magnitude })
    } else {
        Some(Fixed { nanos: magnitude })
    }
}

/// Reads `t` as a number: its value in billionths, rounded towards zero,
/// or `None` where `t` spells no number or one beyond the range of
/// tabulated values.
pub fn parse_number(t: &[u8]) -> (r: Option<Fixed>)
    ensures
        r.is_some() == parse_decimal(t@).is_some(),
        r.is_some() ==> r.unwrap()@ == parse_decimal(t@).unwrap(),
{
    match read_written(t) {
        Some(w) => value_of_written(w),
        None => None,
    }
}

/// A run of digits ends at or after its beginning.
pub proof fn lemma_digits_end_bounds(t: Seq<u8>, i: int)
    requires
        0 <= i <= t.len(),
    ensures
        i <= digits_end(t, i) <= t.len(),
    decreases t.len() - i,
{
    if i < t.len() && is_digit(t[i]) {
        lemma_digits_end_bounds(t, i + 1);
    }
}

} // verus!
