//! The cosine of an angle, summed from its power series in fixed-point
//! arithmetic.

use vstd::prelude::*;
use crate::angle::Angle;
use crate::angle::Normalizations;
use crate::angle::normalized;
use crate::angle::normalize_picoradians;
use crate::angle::PI_PICORADIANS;
use crate::angle::HALF_PI_PICORADIANS;
use crate::fixed::Fixed;
use crate::fixed::abs;

verus! {

/// One, in trillionths.
pub const PICOS_PER_UNIT: i128 = 1_000_000_000_000;

/// The square of `PICOS_PER_UNIT`.
pub const PICOS_PER_UNIT_SQUARED: i128 = 1_000_000_000_000_000_000_000_000;

/// Terms of the power series that are summed after the first.
pub const SERIES_TERMS: u8 = 12;

/// The magnitude of term `k` of the power series of the cosine of `y`
/// trillionths of a radian, in trillionths: the term before it times the
/// square of `y`, over the next two numbers, each division rounded down.
pub open spec fn series_term(y: int, k: nat) -> int
    decreases k,
{
    if k == 0 {
        PICOS_PER_UNIT as int
    } else {
        (series_term(y, (k - 1) as nat) * (y * y)) / (PICOS_PER_UNIT_SQUARED * ((2 * k - 1) * (2
            * k)))
    }
}

/// The sum of the terms of the power series up to term `n`, with
/// alternating signs, in trillionths.
pub open spec fn series_sum(y: int, n: nat) -> int
    decreases n,
{
    if n == 0 {
        series_term(y, 0)
    } else if n % 2 == 1 {
        series_sum(y, (n - 1) as nat) - series_term(y, n)
    } else {
        series_sum(y, (n - 1) as nat) + series_term(y, n)
    }
}

/// The cosine of an angle of `x` trillionths of a radian, in trillionths:
/// the angle is brought to between minus half a turn and half a turn, its
/// sign is dropped, and beyond a quarter of a turn the negative of the
/// cosine of what it lacks to half a turn is taken.
pub open spec fn cosine_picos(x: int) -> int {
    let folded = abs(normalized(x, Normalizations::MinusPiToPi));
    if folded > HALF_PI_PICORADIANS {
        -series_sum(PI_PICORADIANS - folded, SERIES_TERMS as nat)
    } else {
        series_sum(folded, SERIES_TERMS as nat)
    }
}

/// The terms of the series of an angle up to a quarter of a turn stay
/// small.
proof fn lemma_term_bound(y: int, k: nat)
    requires
        0 <= y <= HALF_PI_PICORADIANS,
    ensures
        0 <= series_term(y, k) <= 1_300_000_000_000,
        0 <= series_term(y, k) * (y * y) <= 1_300_000_000_000 * 2_467_401_100_273_339_000_000_000,
    decreases k,
{
    let cap = 2_467_401_100_273_339_000_000_000int;
    assert(0 <= y * y <= 1_570_796_326_795 * 1_570_796_326_795) by (nonlinear_arith)
        requires
            0 <= y <= 1_570_796_326_795,
    ;
    assert(1_570_796_326_795int * 1_570_796_326_795int == 2_467_401_100_272_664_434_972_025int)
        by (nonlinear_arith);
    if k > 0 {
        lemma_term_bound(y, (k - 1) as nat);
        let t = series_term(y, (k - 1) as nat);
        let d = PICOS_PER_UNIT_SQUARED * ((2 * k - 1) * (2 * k));
        assert((2 * k - 1) * (2 * k) >= 2) by (nonlinear_arith)
            requires
                k >= 1,
        ;
        assert(d >= 2 * PICOS_PER_UNIT_SQUARED) by (nonlinear_arith)
            requires
                d == PICOS_PER_UNIT_SQUARED * ((2 * k - 1) * (2 * k)),
                (2 * k - 1) * (2 * k) >= 2,
        ;
        vstd::arithmetic::div_mod::lemma_div_pos_is_pos(t * (y * y), d);
        if k == 1 {
            assert(t * (y * y) <= PICOS_PER_UNIT * cap) by (nonlinear_arith)
                requires
                    t == PICOS_PER_UNIT,
                    0 <= y * y <= cap,
            ;
            assert(d == 2 * PICOS_PER_UNIT_SQUARED) by (nonlinear_arith)
                requires
                    d == PICOS_PER_UNIT_SQUARED * ((2 * k - 1) * (2 * k)),
                    k == 1,
            ;
            vstd::arithmetic::div_mod::lemma_div_is_ordered(t * (y * y), PICOS_PER_UNIT * cap, d);
            assert((PICOS_PER_UNIT * cap) / d <= 1_300_000_000_000) by (nonlinear_arith)
                requires
                    d == 2_000_000_000_000_000_000_000_000,
                    cap == 2_467_401_100_273_339_000_000_000,
            ;
        } else {
            assert((2 * k - 1) * (2 * k) >= 12) by (nonlinear_arith)
                requires
                    k >= 2,
            ;
            assert(d >= 12 * PICOS_PER_UNIT_SQUARED) by (nonlinear_arith)
                requires
                    d == PICOS_PER_UNIT_SQUARED * ((2 * k - 1) * (2 * k)),
                    (2 * k - 1) * (2 * k) >= 12,
            ;
            vstd::arithmetic::div_mod::lemma_div_is_ordered_by_denominator(
                t * (y * y),
                12 * PICOS_PER_UNIT_SQUARED,
                d,
            );
            vstd::arithmetic::div_mod::lemma_div_is_ordered(
                t * (y * y),
                1_300_000_000_000 * cap,
                12 * PICOS_PER_UNIT_SQUARED,
            );
            assert((1_300_000_000_000 * cap) / (12 * PICOS_PER_UNIT_SQUARED) <= 1_300_000_000_000)
                by (nonlinear_arith)
                requires
                    cap == 2_467_401_100_273_339_000_000_000,
            ;
        }
    }
    let s = series_term(y, k);
    assert(0 <= s * (y * y) <= 1_300_000_000_000 * cap) by (nonlinear_arith)
        requires
            0 <= s <= 1_300_000_000_000,
            0 <= y * y <= cap,
    ;
}

/// The power series of the cosine of the angle `y` up to a quarter of a
/// turn, in trillionths.
fn cosine_series(y: i128) -> (r: i128)
    requires
        0 <= y <= HALF_PI_PICORADIANS,
    ensures
        r == series_sum(y as int, SERIES_TERMS as nat),
        -PICOS_PER_UNIT <= r <= PICOS_PER_UNIT,
{
    proof {
        lemma_series_within_one(y as int);
    }
    assert(0 <= y * y <= 1_570_796_326_795 * 1_570_796_326_795) by (nonlinear_arith)
        requires
            0 <= y <= 1_570_796_326_795,
    ;
    assert(1_570_796_326_795int * 1_570_796_326_795int == 2_467_401_100_272_664_434_972_025int)
        by (nonlinear_arith);
    let square: i128 = y * y;
    let mut term: i128 = PICOS_PER_UNIT;
    let mut sum: i128 = PICOS_PER_UNIT;
    let mut k: u8 = 0;
    while k < SERIES_TERMS
        invariant
            0 <= y <= HALF_PI_PICORADIANS,
            square == y * y,
            k <= SERIES_TERMS,
            term == series_term(y as int, k as nat),
            sum == series_sum(y as int, k as nat),
            -1_300_000_000_000 * (k + 1) <= sum <= 1_300_000_000_000 * (k + 1),
        decreases SERIES_TERMS - k,
    {
        proof {
            lemma_term_bound(y as int, k as nat);
            lemma_term_bound(y as int, (k + 1) as nat);
        }
        k += 1;
        let n: i128 = k as i128;
        assert((2 * n - 1) * (2 * n) <= 600 && (2 * n - 1) * (2 * n) >= 2) by (nonlinear_arith)
            requires
                1 <= n <= 12,
        ;
        let divisor: i128 = PICOS_PER_UNIT_SQUARED * ((2 * n - 1) * (2 * n));
        term = (term * square) / divisor;
        if k % 2 == 1 {
            sum = sum - term;
        } else {
            sum = sum + term;
        }
    }
    sum
}

/// The cosine of `angle`, rounded towards zero.
pub fn cosine(angle: &Angle) -> (r: Fixed)
    ensures
        r@ == crate::fixed::trunc_div(cosine_picos(angle@), 1_000),
        -1_000_000_000 <= r@ <= 1_000_000_000,
{
    let reduced: i128 = normalize_picoradians(angle.picoradians, Normalizations::MinusPiToPi);
    let folded: i128 = if reduced < 0 {
        -reduced
    } else {
        reduced
    };
    let picos: i128 = if folded > HALF_PI_PICORADIANS {
        -cosine_series(PI_PICORADIANS - folded)
    } else {
        cosine_series(folded)
    };
    Fixed { nanos: picos / 1_000 }
}

/// The cosine taken of any angle lies between minus one and one.
pub proof fn lemma_cosine_bound(x: int)
    ensures
        -PICOS_PER_UNIT <= cosine_picos(x) <= PICOS_PER_UNIT,
        -1_000_000_000 <= crate::fixed::trunc_div(cosine_picos(x), 1_000) <= 1_000_000_000,
{
    let folded = abs(normalized(x, Normalizations::MinusPiToPi));
    lemma_normalized_range(x);
    if folded > HALF_PI_PICORADIANS {
        lemma_series_within_one(PI_PICORADIANS - folded);
    } else {
        lemma_series_within_one(folded);
    }
}

/// From the second term on, no term of the series of an angle up to a
/// quarter of a turn is greater than the term before it.
proof fn lemma_terms_fall(y: int, k: nat)
    requires
        0 <= y <= HALF_PI_PICORADIANS,
        k >= 1,
    ensures
        0 <= series_term(y, k + 1) <= series_term(y, k),
{
    lemma_term_bound(y, k);
    lemma_term_bound(y, k + 1);
    let t = series_term(y, k);
    let m = (2 * (k + 1) - 1) * (2 * (k + 1));
    let d = PICOS_PER_UNIT_SQUARED * m;
    assert(0 <= y * y <= 1_570_796_326_795 * 1_570_796_326_795) by (nonlinear_arith)
        requires
            0 <= y <= 1_570_796_326_795,
    ;
    assert(1_570_796_326_795int * 1_570_796_326_795int == 2_467_401_100_272_664_434_972_025int)
        by (nonlinear_arith);
    assert(m >= 12) by (nonlinear_arith)
        requires
            m == (2 * (k + 1) - 1) * (2 * (k + 1)),
            k >= 1,
    ;
    assert(d >= 12 * PICOS_PER_UNIT_SQUARED) by (nonlinear_arith)
        requires
            d == PICOS_PER_UNIT_SQUARED * m,
            m >= 12,
    ;
    assert(t * (y * y) <= t * d) by (nonlinear_arith)
        requires
            0 <= t,
            y * y <= d,
    ;
    vstd::arithmetic::div_mod::lemma_div_is_ordered(t * (y * y), t * d, d);
    vstd::arithmetic::div_mod::lemma_div_multiples_vanish(t, d);
    assert(t * d == d * t) by (nonlinear_arith);
    assert(series_term(y, k + 1) == (t * (y * y)) / d);
}

/// The sum of the series of an angle up to a quarter of a turn swings
/// between its first term and its first term less the second, ever less
/// widely.
proof fn lemma_sum_swings(y: int, n: nat)
    requires
        0 <= y <= HALF_PI_PICORADIANS,
        n >= 1,
    ensures
        n % 2 == 1 ==> series_term(y, 0) - series_term(y, 1) <= series_sum(y, n) <= series_term(
            y,
            0,
        ) - series_term(y, n),
        n % 2 == 0 ==> series_term(y, 0) - series_term(y, 1) + series_term(y, n) <= series_sum(
            y,
            n,
        ) <= series_term(y, 0),
    decreases n,
{
    if n == 1 {
        assert(series_sum(y, 0) == series_term(y, 0));
        assert(series_sum(y, 1) == series_sum(y, 0) - series_term(y, 1));
    } else {
        lemma_sum_swings(y, (n - 1) as nat);
        lemma_terms_fall(y, (n - 1) as nat);
        lemma_term_bound(y, n);
    }
}

/// The sum of the series of an angle up to a quarter of a turn lies
/// between minus one and one.
proof fn lemma_series_within_one(y: int)
    requires
        0 <= y <= HALF_PI_PICORADIANS,
    ensures
        -PICOS_PER_UNIT <= series_sum(y, SERIES_TERMS as nat) <= PICOS_PER_UNIT,
{
    lemma_sum_swings(y, SERIES_TERMS as nat);
    lemma_term_bound(y, 1);
    lemma_term_bound(y, SERIES_TERMS as nat);
}

/// An angle brought to between minus half a turn and half a turn lies
/// there.
proof fn lemma_normalized_range(x: int)
    ensures
        -PI_PICORADIANS <= normalized(x, Normalizations::MinusPiToPi) <= PI_PICORADIANS,
{
    let b = crate::angle::TWO_PI_PICORADIANS as int;
    if x >= 0 {
        vstd::arithmetic::div_mod::lemma_fundamental_div_mod(x, b);
        vstd::arithmetic::div_mod::lemma_mod_bound(x, b);
    } else {
        vstd::arithmetic::div_mod::lemma_fundamental_div_mod(-x, b);
        vstd::arithmetic::div_mod::lemma_mod_bound(-x, b);
    }
}

/// The cosine of half a turn, either way round, is minus one.
pub proof fn lemma_cosine_of_half_turn()
    ensures
        cosine_picos(PI_PICORADIANS as int) == -PICOS_PER_UNIT,
        cosine_picos(-PI_PICORADIANS as int) == -PICOS_PER_UNIT,
{
    let b = crate::angle::TWO_PI_PICORADIANS as int;
    assert(PI_PICORADIANS as int / b == 0) by (nonlinear_arith)
        requires
            b == 6_283_185_307_180,
    ;
    assert(normalized(PI_PICORADIANS as int, Normalizations::MinusPiToPi) == PI_PICORADIANS);
    assert(normalized(-PI_PICORADIANS as int, Normalizations::MinusPiToPi) == -PI_PICORADIANS);
    lemma_series_of_zero(SERIES_TERMS as nat);
}

/// The cosine of no angle at all is one.
pub proof fn lemma_cosine_of_zero()
    ensures
        cosine_picos(0) == PICOS_PER_UNIT,
{
    assert(crate::fixed::trunc_div(0, crate::angle::TWO_PI_PICORADIANS as int) == 0);
    assert(normalized(0, Normalizations::MinusPiToPi) == 0);
    lemma_series_of_zero(SERIES_TERMS as nat);
}

/// The series of no angle at all is its first term.
proof fn lemma_series_of_zero(n: nat)
    ensures
        series_sum(0, n) == PICOS_PER_UNIT,
        n > 0 ==> series_term(0, n) == 0,
    decreases n,
{
    if n > 0 {
        lemma_series_of_zero((n - 1) as nat);
        let t = series_term(0, (n - 1) as nat);
        assert(t * (0int * 0int) == 0) by (nonlinear_arith);
        let d = PICOS_PER_UNIT_SQUARED * ((2 * n - 1) * (2 * n));
        assert(d > 0) by (nonlinear_arith)
            requires
                d == PICOS_PER_UNIT_SQUARED * ((2 * n - 1) * (2 * n)),
                n >= 1,
        ;
        vstd::arithmetic::div_mod::lemma_div_of0(d);
    }
}

} // verus!
