//! Directions in space, each given by a vector that points along it.

use vstd::prelude::*;

verus! {

/// Length of the longest vector that names a direction: the radius of the
/// ball from which the vectors are drawn.
pub const UNIT_RADIUS: i64 = 1_000_000_000;

/// A direction, given by the components of a vector along it in
/// billionths.
#[derive(Clone, Copy, Debug, PartialEq, Eq, Structural)]
pub struct Direction {
    pub x: i64,
    pub y: i64,
    pub z: i64,
}

/// The squared length of the vector with the components `x`, `y`, `z`.
pub open spec fn squared_length(x: int, y: int, z: int) -> int {
    x * x + y * y + z * z
}

/// `true` when the vector with the components `x`, `y`, `z` is not the
/// zero vector and lies within the ball of radius `UNIT_RADIUS`.
pub open spec fn is_in_unit_ball(x: int, y: int, z: int) -> bool {
    0 < squared_length(x, y, z) <= UNIT_RADIUS * UNIT_RADIUS
}

impl Direction {
    /// `true` when the vector that gives the direction is not the zero
    /// vector and lies within the ball of radius `UNIT_RADIUS`.
    pub open spec fn wf(&self) -> bool {
        is_in_unit_ball(self.x as int, self.y as int, self.z as int)
    }

    /// The direction of the third axis.
    pub fn z_axis() -> (r: Direction)
        ensures
            r.wf(),
            r.x == 0 && r.y == 0 && r.z == UNIT_RADIUS,
    {
        assert(UNIT_RADIUS * UNIT_RADIUS == 1_000_000_000_000_000_000) by (nonlinear_arith);
        Direction { x: 0, y: 0, z: UNIT_RADIUS }
    }

    /// The direction along the vector with the components `x`, `y`, `z`,
    /// where that vector is fit to name one.
    pub fn new(x: i64, y: i64, z: i64) -> (r: Option<Direction>)
        ensures
            r.is_some() == is_in_unit_ball(x as int, y as int, z as int),
            r.is_some() ==> r.unwrap() == (Direction { x, y, z }),
    {
        if points_somewhere(x, y, z) {
            Some(Direction { x, y, z })
        } else {
            None
        }
    }
}

/// Tells whether `a` lies between `-UNIT_RADIUS` and `UNIT_RADIUS`.
fn is_short(a: i64) -> (r: bool)
    ensures
        r == (-UNIT_RADIUS <= a <= UNIT_RADIUS),
        r ==> 0 <= a * a <= UNIT_RADIUS * UNIT_RADIUS,
        !r ==> a * a > UNIT_RADIUS * UNIT_RADIUS,
{
    assert(-UNIT_RADIUS <= a <= UNIT_RADIUS ==> 0 <= a * a <= UNIT_RADIUS * UNIT_RADIUS)
        by (nonlinear_arith);
    assert(a > UNIT_RADIUS ==> a * a > UNIT_RADIUS * UNIT_RADIUS) by (nonlinear_arith);
    assert(a < -UNIT_RADIUS ==> a * a > UNIT_RADIUS * UNIT_RADIUS) by (nonlinear_arith);
    -UNIT_RADIUS <= a && a <= UNIT_RADIUS
}

/// Tells whether the vector with the components `x`, `y`, `z` is not the
/// zero vector and lies within the ball of radius `UNIT_RADIUS`.
pub fn points_somewhere(x: i64, y: i64, z: i64) -> (r: bool)
    ensures
        r == is_in_unit_ball(x as int, y as int, z as int),
{
    assert(UNIT_RADIUS * UNIT_RADIUS == 1_000_000_000_000_000_000) by (nonlinear_arith);
    assert(x * x >= 0 && y * y >= 0 && z * z >= 0) by (nonlinear_arith);
    if !is_short(x) || !is_short(y) || !is_short(z) {
        return false;
    }
    let limit: i128 = 1_000_000_000_000_000_000;
    let xx: i128 = (x as i128) * (x as i128);
    let yy: i128 = (y as i128) * (y as i128);
    let zz: i128 = (z as i128) * (z as i128);
    let sum: i128 = xx + yy + zz;
    0 < sum && sum <= limit
}

} // verus!
