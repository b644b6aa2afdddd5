//! How large the lit part of a planet appears to an observer.

use vstd::prelude::*;
use crate::angle::Angle;
use crate::fixed::Fixed;
use crate::fixed::trunc_div;
use crate::fixed::NANOS_PER_UNIT;
use crate::fixed::PI_NANOS;
use crate::length::Length;
use crate::trigonometry::cosine;
use crate::trigonometry::cosine_picos;

verus! {

/// The greatest radius in metres of a body whose solid angle is taken.
pub const MAX_BODY_RADIUS: i128 = 1_000_000_000;

/// The greatest distance in metres from which a solid angle is taken.
pub const MAX_BODY_DISTANCE: i128 = 100_000_000_000_000;

/// The part of a planet's disk that is lit, in billionths, where the
/// light is thrown back at an angle of `picoradians`: half of one and the
/// cosine of the angle.
pub open spec fn lit_part(picoradians: int) -> int {
    trunc_div(NANOS_PER_UNIT + trunc_div(cosine_picos(picoradians), 1_000), 2)
}

/// The solid angle in billionths of a steradian of the lit part of a body
/// of the radius `radius` metres at the distance `distance` metres: the
/// area of the lit part of its disk over the square of the distance.
pub open spec fn lit_solid_angle(radius: int, distance: int, picoradians: int) -> int {
    trunc_div(
        PI_NANOS * (radius * radius) * lit_part(picoradians),
        (distance * distance) * NANOS_PER_UNIT,
    )
}

/// The part of a planet's disk that an observer sees lit, where the light
/// of the star is thrown back to the observer at `reflection_angle`.
pub fn illuminated_fraction(reflection_angle: &Angle) -> (r: Fixed)
    ensures
        r@ == lit_part(reflection_angle@),
        0 <= r@ <= NANOS_PER_UNIT,
{
    let cos: Fixed = cosine(reflection_angle);
    proof {
        crate::trigonometry::lemma_cosine_bound(reflection_angle@);
    }
    Fixed { nanos: (NANOS_PER_UNIT + cos.nanos) / 2 }
}

/// The solid angle under which an observer at `distance` sees the lit
/// part of a body of the radius `radius`.
pub fn solid_angle(radius: &Length, distance: &Length, reflection_angle: &Angle) -> (r: Fixed)
    requires
        0 <= radius@ <= MAX_BODY_RADIUS,
        0 < distance@ <= MAX_BODY_DISTANCE,
    ensures
        r@ == lit_solid_angle(radius@, distance@, reflection_angle@),
        0 <= r@,
{
    let fraction: Fixed = illuminated_fraction(reflection_angle);
    assert(0 <= radius@ * radius@ <= MAX_BODY_RADIUS * MAX_BODY_RADIUS) by (nonlinear_arith)
        requires
            0 <= radius@ <= MAX_BODY_RADIUS,
    ;
    assert(0 < distance@ * distance@ <= MAX_BODY_DISTANCE * MAX_BODY_DISTANCE)
        by (nonlinear_arith)
        requires
            0 < distance@ <= MAX_BODY_DISTANCE,
    ;
    assert(MAX_BODY_RADIUS * MAX_BODY_RADIUS == 1_000_000_000_000_000_000) by (nonlinear_arith);
    assert(MAX_BODY_DISTANCE * MAX_BODY_DISTANCE == 10_000_000_000_000_000_000_000_000_000)
        by (nonlinear_arith);
    let square: i128 = radius.meters * radius.meters;
    assert(0 <= PI_NANOS * square <= 3_141_592_654_000_000_000_000_000_000) by (nonlinear_arith)
        requires
            0 <= square <= 1_000_000_000_000_000_000,
    ;
    let disk: i128 = PI_NANOS * square;
    let part: i128 = fraction.nanos;
    assert(0 <= disk * part <= 3_141_592_654_000_000_000_000_000_000_000_000_000)
        by (nonlinear_arith)
        requires
            0 <= disk <= 3_141_592_654_000_000_000_000_000_000,
            0 <= part <= 1_000_000_000,
    ;
    let area: i128 = disk * part;
    assert(PI_NANOS * (radius@ * radius@) * lit_part(reflection_angle@) == area);
    let far: i128 = (distance.meters * distance.meters) * NANOS_PER_UNIT;
    proof {
        vstd::arithmetic::div_mod::lemma_div_pos_is_pos(area as int, far as int);
    }
    Fixed { nanos: area / far }
}

} // verus!
