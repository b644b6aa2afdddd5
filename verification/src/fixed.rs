//! A decimal fixed-point scalar: an integer count of billionths.

use vstd::prelude::*;

verus! {

/// Number of billionths in one unit.
pub const NANOS_PER_UNIT: i128 = 1_000_000_000;

/// The circle number in billionths.
pub const PI_NANOS: i128 = 3_141_592_654;

/// Largest magnitude, in billionths, of a tabulated value.
pub const TABLE_LIMIT: i128 = 1_000_000_000_000_000_000_000_000_000_000;

/// A scalar with nine decimal places, held as a count of billionths.
#[derive(Clone, Copy, Debug, PartialEq, Eq, Structural)]
pub struct Fixed {
    pub nanos: i128,
}

/// The absolute value of an integer.
pub open spec fn abs(x: int) -> int {
    if x < 0 {
        -x
    } else {
        x
    }
}

/// Division that rounds towards zero, for a positive divisor.
pub open spec fn trunc_div(a: int, b: int) -> int {
    if a >= 0 {
        a / b
    } else {
        -((-a) / b)
    }
}

impl Fixed {
    /// The scalar zero.
    pub fn zero() -> (r: Fixed)
        ensures
            r@ == 0,
    {
        Fixed { nanos: 0 }
    }

    /// The scalar one.
    pub fn one() -> (r: Fixed)
        ensures
            r@ == NANOS_PER_UNIT,
    {
        Fixed { nanos: NANOS_PER_UNIT }
    }

    /// The scalar's value in billionths.
    pub open spec fn view(&self) -> int {
        self.nanos as int
    }

    /// The scalar that counts `nanos` billionths.
    pub fn from_nanos(nanos: i128) -> (r: Fixed)
        ensures
            r@ == nanos,
    {
        Fixed { nanos }
    }

    /// The scalar that equals the whole number `units`.
    pub fn from_units(units: i64) -> (r: Fixed)
        ensures
            r@ == units * NANOS_PER_UNIT,
    {
        Fixed { nanos: (units as i128) * NANOS_PER_UNIT }
    }

    /// The scalar's value in billionths.
    pub fn as_nanos(&self) -> (r: i128)
        ensures
            r == self@,
    {
        self.nanos
    }
}

/// Tells whether `target` lies strictly closer to `a` than to `b`.
pub fn is_closer(target: i128, a: i128, b: i128) -> (r: bool)
    ensures
        r == (abs(target - a) < abs(target - b)),
{
    if a == b {
        false
    } else if a < b {
        if target <= a {
            true
        } else if target >= b {
            false
        } else {
            match (target.checked_sub(a), b.checked_sub(target)) {
                (Some(from_a), Some(to_b)) => from_a < to_b,
                (Some(_), None) => true,
                _ => false,
            }
        }
    } else {
        if target >= a {
            true
        } else if target <= b {
            false
        } else {
            match (a.checked_sub(target), target.checked_sub(b)) {
                (Some(to_a), Some(from_b)) => to_a < from_b,
                (Some(_), None) => true,
                _ => false,
            }
        }
    }
}

/// Tells whether `a` and `b` differ by at most `tolerance`.
pub fn differs_at_most(a: i128, b: i128, tolerance: i128) -> (r: bool)
    ensures
        r == (abs(a - b) <= tolerance),
{
    match a.checked_sub(b) {
        Some(d) => {
            if d == i128::MIN {
                false
            } else if d < 0 {
                -d <= tolerance
            } else {
                d <= tolerance
            }
        },
        None => false,
    }
}

/// Divides `a` by the positive `b`, rounding towards zero.
pub fn div_towards_zero(a: i128, b: i128) -> (r: i128)
    requires
        b > 0,
    ensures
        r == trunc_div(a as int, b as int),
{
    a / b
}

/// `true` when `x` is a value of `i128`.
pub open spec fn fits_i128(x: int) -> bool {
    i128::MIN <= x <= i128::MAX
}

/// `count` units of `per_unit` base units each, rounded towards zero to
/// whole base units, where `count` is given in billionths.
pub open spec fn scaled_up(count: int, per_unit: int) -> int {
    trunc_div(count * per_unit, NANOS_PER_UNIT as int)
}

/// `amount` base units in units of `per_unit` base units each, in
/// billionths and rounded towards zero.
pub open spec fn scaled_down(amount: int, per_unit: int) -> int {
    trunc_div(amount * NANOS_PER_UNIT, per_unit)
}

/// Converts `count`, given in billionths of a unit of `per_unit` base
/// units, to whole base units.
pub fn scale_up(count: Fixed, per_unit: i128) -> (r: i128)
    requires
        per_unit > 0,
        fits_i128(count@ * per_unit),
    ensures
        r == scaled_up(count@, per_unit as int),
{
    (count.nanos * per_unit) / NANOS_PER_UNIT
}

/// Converts `amount` base units to billionths of a unit of `per_unit`
/// base units.
pub fn scale_down(amount: i128, per_unit: i128) -> (r: Fixed)
    requires
        per_unit > 0,
        fits_i128(amount * NANOS_PER_UNIT),
    ensures
        r@ == scaled_down(amount as int, per_unit as int),
{
    Fixed { nanos: (amount * NANOS_PER_UNIT) / per_unit }
}

/// Divides `a` by the positive `b`, rounding down.
pub fn floor_div(a: i128, b: i128) -> (r: i128)
    requires
        b > 0,
    ensures
        r == (a as int) / (b as int),
{
    let q: i128 = a / b;
    let m: i128 = a % b;
    proof {
        vstd::arithmetic::div_mod::lemma_fundamental_div_mod(a as int, b as int);
        vstd::arithmetic::div_mod::lemma_mod_bound(a as int, b as int);
        if a < 0 {
            vstd::arithmetic::div_mod::lemma_fundamental_div_mod(-(a as int), b as int);
            vstd::arithmetic::div_mod::lemma_mod_bound(-(a as int), b as int);
        }
    }
    if m < 0 {
        proof {
            let n = -(a as int);
            let k = n / (b as int);
            let e = n % (b as int);
            assert(q == -k);
            assert(m == -e);
            assert(k < n) by (nonlinear_arith)
                requires
                    n == b * k + e,
                    e > 0,
                    b > 0,
                    k >= 0,
            ;
            assert(a == b * (-k - 1) + (b - e)) by (nonlinear_arith)
                requires
                    a == -n,
                    n == b * k + e,
            ;
            vstd::arithmetic::div_mod::lemma_fundamental_div_mod_converse(
                a as int,
                b as int,
                -k - 1,
                b - e,
            );
        }
        q - 1
    } else {
        proof {
            if a < 0 {
                let n = -(a as int);
                let k = n / (b as int);
                assert(n == b * k);
                assert(a == b * (-k) + 0) by (nonlinear_arith)
                    requires
                        a == -n,
                        n == b * k,
                ;
                vstd::arithmetic::div_mod::lemma_fundamental_div_mod_converse(
                    a as int,
                    b as int,
                    -k,
                    0,
                );
            }
        }
        q
    }
}

/// The remainder of `a` on division by the positive `b`, never negative.
pub fn floor_mod(a: i128, b: i128) -> (r: i128)
    requires
        b > 0,
    ensures
        r == (a as int) % (b as int),
        0 <= r < b,
{
    let m: i128 = a % b;
    proof {
        vstd::arithmetic::div_mod::lemma_fundamental_div_mod(a as int, b as int);
        vstd::arithmetic::div_mod::lemma_mod_bound(a as int, b as int);
        if a < 0 {
            let n = -(a as int);
            let k = n / (b as int);
            let e = n % (b as int);
            vstd::arithmetic::div_mod::lemma_fundamental_div_mod(n, b as int);
            vstd::arithmetic::div_mod::lemma_mod_bound(n, b as int);
            assert(m == -e);
            if e > 0 {
                assert(a == b * (-k - 1) + (b - e)) by (nonlinear_arith)
                    requires
                        a == -n,
                        n == b * k + e,
                ;
                vstd::arithmetic::div_mod::lemma_fundamental_div_mod_converse(
                    a as int,
                    b as int,
                    -k - 1,
                    b - e,
                );
            } else {
                assert(a == b * (-k) + 0) by (nonlinear_arith)
                    requires
                        a == -n,
                        n == b * k + e,
                        e == 0,
                ;
                vstd::arithmetic::div_mod::lemma_fundamental_div_mod_converse(
                    a as int,
                    b as int,
                    -k,
                    0,
                );
            }
        }
    }
    if m < 0 {
        m + b
    } else {
        m
    }
}

} // verus!
