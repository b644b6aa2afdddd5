//! Angles, held in trillionths of a radian.

use vstd::prelude::*;
use crate::display::format_ratio;
use crate::display::hundredths_text;
use crate::display::rounded_hundredths;
use crate::fixed::Fixed;
use crate::fixed::abs;
use crate::fixed::trunc_div;
use crate::fixed::fits_i128;

verus! {

/// Trillionths of a radian in one billionth of a radian.
pub const PICORADIANS_PER_NANORADIAN: i128 = 1_000;

/// Half a turn in trillionths of a radian.
pub const PI_PICORADIANS: i128 = 3_141_592_653_590;

/// A quarter of a turn in trillionths of a radian.
pub const HALF_PI_PICORADIANS: i128 = 1_570_796_326_795;

/// A full turn in trillionths of a radian.
pub const TWO_PI_PICORADIANS: i128 = 6_283_185_307_180;

/// Half a turn in billionths of a degree.
pub const HALF_TURN_NANODEGREES: i128 = 180_000_000_000;

/// Half a turn in billionths of an arcsecond.
pub const HALF_TURN_NANOARCSECS: i128 = 648_000_000_000_000;

/// The greatest magnitude of the angles, in trillionths of a radian, and
/// of the accuracy, in billionths, that `eq_within` compares.
pub const COMPARABLE_LIMIT: i128 = 1_000_000_000_000_000_000;

/// The greatest magnitude, in trillionths of a radian, of an angle that is
/// written out.
pub const DISPLAY_LIMIT: i128 = 1_000_000_000_000_000_000_000_000;

/// An angle in trillionths of a radian.
#[derive(Clone, Copy, Debug, PartialEq, Eq, Structural)]
pub struct Angle {
    pub picoradians: i128,
}

/// The ranges that an angle can be brought into.
#[derive(Clone, Copy, Debug, PartialEq, Eq, Structural)]
pub enum Normalizations {
    ZeroToTwoPi,
    MinusPiToPi,
    MinusPiHalfToPiHalf,
}

/// The remainder of `a` on division by the positive `b`, with the sign of
/// `a`.
pub open spec fn trunc_rem(a: int, b: int) -> int {
    a - b * trunc_div(a, b)
}

/// `x` times `numerator` over `denominator`, rounded towards zero.
pub open spec fn rescaled(x: int, numerator: int, denominator: int) -> int {
    trunc_div(x * numerator, denominator)
}

/// The angle `x` brought into the range `normalization`, both in
/// trillionths of a radian.
pub open spec fn normalized(x: int, normalization: Normalizations) -> int {
    match normalization {
        Normalizations::ZeroToTwoPi => {
            let r = trunc_rem(x, TWO_PI_PICORADIANS as int);
            if r < 0 {
                r + TWO_PI_PICORADIANS
            } else {
                r
            }
        },
        Normalizations::MinusPiToPi => {
            let r = trunc_rem(x, TWO_PI_PICORADIANS as int);
            if r > PI_PICORADIANS {
                r - TWO_PI_PICORADIANS
            } else if r < -PI_PICORADIANS {
                r + TWO_PI_PICORADIANS
            } else {
                r
            }
        },
        Normalizations::MinusPiHalfToPiHalf => {
            let r = trunc_rem(x, PI_PICORADIANS as int);
            if r > HALF_PI_PICORADIANS {
                r - PI_PICORADIANS
            } else if r < -HALF_PI_PICORADIANS {
                r + PI_PICORADIANS
            } else {
                r
            }
        },
    }
}

/// `true` when `r` lies in the range `normalization`.
pub open spec fn is_in_range(r: int, normalization: Normalizations) -> bool {
    match normalization {
        Normalizations::ZeroToTwoPi => 0 <= r < TWO_PI_PICORADIANS,
        Normalizations::MinusPiToPi => -PI_PICORADIANS <= r <= PI_PICORADIANS,
        Normalizations::MinusPiHalfToPiHalf => -HALF_PI_PICORADIANS <= r <= HALF_PI_PICORADIANS,
    }
}

/// The length of the turn by whose multiples an angle is moved into the
/// range `normalization`.
pub open spec fn period(normalization: Normalizations) -> int {
    match normalization {
        Normalizations::ZeroToTwoPi => TWO_PI_PICORADIANS as int,
        Normalizations::MinusPiToPi => TWO_PI_PICORADIANS as int,
        Normalizations::MinusPiHalfToPiHalf => PI_PICORADIANS as int,
    }
}

/// The remainder of `a` on division by the positive `b`, with the sign of
/// `a`.
fn remainder(a: i128, b: i128) -> (r: i128)
    requires
        b > 0,
    ensures
        r == trunc_rem(a as int, b as int),
        -b < r < b,
        a >= 0 ==> r >= 0,
        a <= 0 ==> r <= 0,
        (a - r) % (b as int) == 0,
{
    let r: i128 = a % b;
    proof {
        vstd::arithmetic::div_mod::lemma_fundamental_div_mod(a as int, b as int);
        vstd::arithmetic::div_mod::lemma_mod_bound(a as int, b as int);
        if a < 0 {
            vstd::arithmetic::div_mod::lemma_fundamental_div_mod(-(a as int), b as int);
            vstd::arithmetic::div_mod::lemma_mod_bound(-(a as int), b as int);
        }
        let k = trunc_div(a as int, b as int);
        if a < 0 {
            let n = -(a as int);
            let q = n / (b as int);
            let e = n % (b as int);
            assert(r == -e);
            assert(k == -q);
            assert(r == a - b * k) by (nonlinear_arith)
                requires
                    n == b * q + e,
                    r == -e,
                    k == -q,
                    n == -a,
            ;
        }
        assert(a - r == k * b) by (nonlinear_arith)
            requires
                r == a - b * k,
        ;
        vstd::arithmetic::div_mod::lemma_mod_multiples_basic(k, b as int);
    }
    r
}

impl Angle {
    /// The angle in trillionths of a radian.
    pub open spec fn view(&self) -> int {
        self.picoradians as int
    }

    /// The angle of no turn at all.
    pub fn zero() -> (r: Angle)
        ensures
            r@ == 0,
    {
        Angle { picoradians: 0 }
    }

    /// The angle of `picoradians` trillionths of a radian.
    pub fn from_picoradians(picoradians: i128) -> (r: Angle)
        ensures
            r@ == picoradians,
    {
        Angle { picoradians }
    }

    /// The angle of `radian` radians.
    pub fn from_radians(radian: Fixed) -> (r: Angle)
        requires
            fits_i128(radian@ * PICORADIANS_PER_NANORADIAN),
        ensures
            r@ == radian@ * PICORADIANS_PER_NANORADIAN,
    {
        Angle { picoradians: radian.nanos * PICORADIANS_PER_NANORADIAN }
    }

    /// The angle of `degree` degrees, rounded towards zero.
    pub fn from_degrees(degree: Fixed) -> (r: Angle)
        requires
            fits_i128(degree@ * PI_PICORADIANS),
        ensures
            r@ == rescaled(degree@, PI_PICORADIANS as int, HALF_TURN_NANODEGREES as int),
    {
        Angle { picoradians: (degree.nanos * PI_PICORADIANS) / HALF_TURN_NANODEGREES }
    }

    /// The angle of `arcsec` arcseconds, rounded towards zero.
    pub fn from_arcsecs(arcsec: Fixed) -> (r: Angle)
        requires
            fits_i128(arcsec@ * PI_PICORADIANS),
        ensures
            r@ == rescaled(arcsec@, PI_PICORADIANS as int, HALF_TURN_NANOARCSECS as int),
    {
        Angle { picoradians: (arcsec.nanos * PI_PICORADIANS) / HALF_TURN_NANOARCSECS }
    }

    /// The angle in radians, rounded towards zero.
    pub fn as_radians(&self) -> (r: Fixed)
        ensures
            r@ == trunc_div(self@, PICORADIANS_PER_NANORADIAN as int),
    {
        Fixed { nanos: self.picoradians / PICORADIANS_PER_NANORADIAN }
    }

    /// The angle in degrees, rounded towards zero.
    pub fn as_degrees(&self) -> (r: Fixed)
        requires
            fits_i128(self@ * HALF_TURN_NANODEGREES),
        ensures
            r@ == rescaled(self@, HALF_TURN_NANODEGREES as int, PI_PICORADIANS as int),
    {
        Fixed { nanos: (self.picoradians * HALF_TURN_NANODEGREES) / PI_PICORADIANS }
    }

    /// The angle in arcseconds, rounded towards zero.
    pub fn as_arcsecs(&self) -> (r: Fixed)
        requires
            fits_i128(self@ * HALF_TURN_NANOARCSECS),
        ensures
            r@ == rescaled(self@, HALF_TURN_NANOARCSECS as int, PI_PICORADIANS as int),
    {
        Fixed { nanos: (self.picoradians * HALF_TURN_NANOARCSECS) / PI_PICORADIANS }
    }

    /// The magnitude that `eq_within` measures a difference against: that
    /// of this angle where it is the greater of the two, else that of
    /// `other`.
    pub open spec fn scale_against(&self, other: Angle) -> int {
        if self@ > other@ {
            abs(self@)
        } else {
            abs(other@)
        }
    }

    /// Tells whether the two angles differ by at most the part
    /// `relative_accuracy` of the magnitude of the greater one.
    pub fn eq_within(&self, other: Angle, relative_accuracy: Fixed) -> (r: bool)
        requires
            abs(self@) <= COMPARABLE_LIMIT,
            abs(other@) <= COMPARABLE_LIMIT,
            abs(relative_accuracy@) <= COMPARABLE_LIMIT,
        ensures
            r == (abs(self@ - other@) * 1_000_000_000 <= self.scale_against(other)
                * relative_accuracy@),
    {
        let max: i128 = if self.picoradians > other.picoradians {
            magnitude(self.picoradians)
        } else {
            magnitude(other.picoradians)
        };
        let diff: i128 = magnitude(self.picoradians - other.picoradians);
        assert(-COMPARABLE_LIMIT * COMPARABLE_LIMIT <= max * relative_accuracy@ <= COMPARABLE_LIMIT
            * COMPARABLE_LIMIT) by (nonlinear_arith)
            requires
                0 <= max <= COMPARABLE_LIMIT,
                -COMPARABLE_LIMIT <= relative_accuracy@ <= COMPARABLE_LIMIT,
        ;
        diff * 1_000_000_000 <= max * relative_accuracy.nanos
    }

    /// Brings the angle into the range `normalization` by whole turns, or
    /// half turns for the narrowest range.
    pub fn normalize(&mut self, normalization: Normalizations)
        ensures
            final(self)@ == normalized(old(self)@, normalization),
            is_in_range(final(self)@, normalization),
            (old(self)@ - final(self)@) % period(normalization) == 0,
    {
        self.picoradians = normalize_picoradians(self.picoradians, normalization);
    }

    /// The sum of the two angles.
    pub fn plus(self, other: Angle) -> (r: Angle)
        requires
            fits_i128(self@ + other@),
        ensures
            r@ == self@ + other@,
    {
        Angle { picoradians: self.picoradians + other.picoradians }
    }

    /// The difference of the two angles.
    pub fn minus(self, other: Angle) -> (r: Angle)
        requires
            fits_i128(self@ - other@),
        ensures
            r@ == self@ - other@,
    {
        Angle { picoradians: self.picoradians - other.picoradians }
    }

    /// The angle written in degrees with two decimal places, rounded to
    /// the nearest.
    pub fn to_string(&self) -> (r: String)
        requires
            abs(self@) <= DISPLAY_LIMIT,
        ensures
            r@ == hundredths_text(
                self@ < 0,
                rounded_hundredths((abs(self@) * 180) as nat, PI_PICORADIANS as nat),
            ) + seq![' '] + "deg"@,
    {
        let amount: u128 = (magnitude(self.picoradians) as u128) * 180;
        format_ratio(self.picoradians < 0, amount, PI_PICORADIANS as u128, "deg")
    }
}

/// The angle `x` brought into the range `normalization`, both in
/// trillionths of a radian.
pub fn normalize_picoradians(x: i128, normalization: Normalizations) -> (r: i128)
    ensures
        r == normalized(x as int, normalization),
        is_in_range(r as int, normalization),
        (x - r) % period(normalization) == 0,
{
    match normalization {
        Normalizations::ZeroToTwoPi => {
            let m: i128 = remainder(x, TWO_PI_PICORADIANS);
            if m < 0 {
                assert((x - (m + TWO_PI_PICORADIANS)) % (TWO_PI_PICORADIANS as int) == 0) by {
                    vstd::arithmetic::div_mod::lemma_mod_sub_multiples_vanish(
                        x - m,
                        TWO_PI_PICORADIANS as int,
                    );
                    assert(x - (m + TWO_PI_PICORADIANS) == -(TWO_PI_PICORADIANS as int) + (x - m));
                }
                m + TWO_PI_PICORADIANS
            } else {
                m
            }
        },
        Normalizations::MinusPiToPi => {
            let m: i128 = remainder(x, TWO_PI_PICORADIANS);
            if m > PI_PICORADIANS {
                assert((x - (m - TWO_PI_PICORADIANS)) % (TWO_PI_PICORADIANS as int) == 0) by {
                    vstd::arithmetic::div_mod::lemma_mod_add_multiples_vanish(
                        x - m,
                        TWO_PI_PICORADIANS as int,
                    );
                    assert(x - (m - TWO_PI_PICORADIANS) == (TWO_PI_PICORADIANS as int) + (x - m));
                }
                m - TWO_PI_PICORADIANS
            } else if m < -PI_PICORADIANS {
                assert((x - (m + TWO_PI_PICORADIANS)) % (TWO_PI_PICORADIANS as int) == 0) by {
                    vstd::arithmetic::div_mod::lemma_mod_sub_multiples_vanish(
                        x - m,
                        TWO_PI_PICORADIANS as int,
                    );
                    assert(x - (m + TWO_PI_PICORADIANS) == -(TWO_PI_PICORADIANS as int) + (x - m));
                }
                m + TWO_PI_PICORADIANS
            } else {
                m
            }
        },
        Normalizations::MinusPiHalfToPiHalf => {
            let m: i128 = remainder(x, PI_PICORADIANS);
            if m > HALF_PI_PICORADIANS {
                assert((x - (m - PI_PICORADIANS)) % (PI_PICORADIANS as int) == 0) by {
                    vstd::arithmetic::div_mod::lemma_mod_add_multiples_vanish(
                        x - m,
                        PI_PICORADIANS as int,
                    );
                    assert(x - (m - PI_PICORADIANS) == (PI_PICORADIANS as int) + (x - m));
                }
                m - PI_PICORADIANS
            } else if m < -HALF_PI_PICORADIANS {
                assert((x - (m + PI_PICORADIANS)) % (PI_PICORADIANS as int) == 0) by {
                    vstd::arithmetic::div_mod::lemma_mod_sub_multiples_vanish(
                        x - m,
                        PI_PICORADIANS as int,
                    );
                    assert(x - (m + PI_PICORADIANS) == -(PI_PICORADIANS as int) + (x - m));
                }
                m + PI_PICORADIANS
            } else {
                m
            }
        },
    }
}

/// The magnitude of `x`.
pub fn magnitude(x: i128) -> (r: i128)
    requires
        x > i128::MIN,
    ensures
        r == abs(x as int),
{
    if x < 0 {
        -x
    } else {
        x
    }
}

} // verus!
