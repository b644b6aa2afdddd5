//! A synthesised population of stars: random draws of mass, age and place,
//! looked up in the catalogue and kept where the star can be seen.

use vstd::prelude::*;
use crate::fixed::Fixed;
use crate::fixed::PI_NANOS;
use crate::length::Length;
use crate::length::METERS_PER_LIGHT_YEAR;
use crate::luminosity::Luminosity;
use crate::direction::Direction;
use crate::direction::UNIT_RADIUS;
use crate::direction::points_somewhere;
use crate::error::AstroUtilError;
use crate::mass_grid::GRID_LEN;
use crate::parsec_data::ParsecData;
use crate::parsec_data::ParsecLine;
use crate::parsec_data::closest_row;
use crate::parsec_data::lemma_closest_row_exists;
use crate::sampling::IndexDistribution;
use crate::sampling::weights_of;
use crate::sampling::total_weight;
use crate::sampling::weighted_index;
use crate::sampling::sample_index;
use crate::sampling::sample_between;
use crate::parsec_data::StarState;
use crate::parsec_data::is_star_of_row;
use crate::star_data::StarData;
use rand::rngs::ThreadRng;

verus! {

/// Stars in ten thousand cubic light-years.
pub const STARS_PER_TEN_THOUSAND_LY_CUBED: i128 = 29;

/// The dimmest illuminance that the eye can see, in units of 10^-13 lux.
pub const DIMMEST_ILLUMINANCE: i128 = 65_309;

/// Units of the dimmest illuminance in one lux.
pub const ILLUMINANCE_UNITS_PER_LUX: i128 = 10_000_000_000_000;

/// Age of the thin disk of the Milky Way in years.
pub const AGE_OF_MILKY_WAY_THIN_DISK: u64 = 8_800_000_000;

/// Most stars that are drawn in one go.
pub const MAX_CHUNKSIZE: u64 = 10_000_000;

/// The greatest distance in metres that stars are sampled to.
pub const MAX_SAMPLING_DISTANCE: i128 = 1_000_000_000_000_000_000_000;

/// The number below which the fractions of a sphere's volume are drawn.
pub const VOLUME_STEPS: u64 = 1_000_000_000_000_000_000;

/// The number of steps along the radius of a sphere: the cube root of
/// `VOLUME_STEPS`.
pub const RADIUS_STEPS: u64 = 1_000_000;

/// Thousandths of a light-year in `meters` metres, rounded down.
pub open spec fn milli_light_years(meters: int) -> int {
    (meters * 1000) / (METERS_PER_LIGHT_YEAR as int)
}

/// The number of stars in a sphere of radius `meters` metres, rounded
/// down: the stellar density times the volume of the sphere.
pub open spec fn stars_in_sphere(meters: int) -> int {
    if meters <= 0 {
        0
    } else {
        let d = milli_light_years(meters);
        (4 * STARS_PER_TEN_THOUSAND_LY_CUBED * PI_NANOS * (d * d * d)) / (
        30_000_000_000_000_000_000_000int)
    }
}

/// `r` is the cube root of `u`, rounded down.
pub open spec fn is_cube_root(u: int, r: int) -> bool {
    0 <= r && r * r * r <= u < (r + 1) * (r + 1) * (r + 1)
}

/// `true` when a star of `candela` luminous intensity is bright enough to
/// be seen from `meters` metres away: its illuminance there, the luminous
/// intensity over the square of the distance, is no less than the dimmest
/// that the eye can see.
pub open spec fn is_bright_enough(candela: int, meters: int) -> bool {
    candela * ILLUMINANCE_UNITS_PER_LUX >= DIMMEST_ILLUMINANCE * (meters * meters)
}

/// The exponent of the power law by which stars of `solar_nanos`
/// billionths of a solar mass are less frequent the heavier they are, in
/// tenths.
pub open spec fn kroupa_exponent(solar_nanos: int) -> int {
    if solar_nanos <= 80_000_000 {
        3
    } else if solar_nanos <= 500_000_000 {
        13
    } else if solar_nanos <= 1_000_000_000 {
        23
    } else {
        27
    }
}

/// The exponent, in tenths, of the power law of the mass function at the
/// mass `m_in_solar_masses`: the weight of that mass is the mass to the
/// negative of this power.
pub fn kroupa_exponent_tenths(m_in_solar_masses: Fixed) -> (r: u8)
    ensures
        r == kroupa_exponent(m_in_solar_masses@),
{
    if m_in_solar_masses.nanos <= 80_000_000 {
        3
    } else if m_in_solar_masses.nanos <= 500_000_000 {
        13
    } else if m_in_solar_masses.nanos <= 1_000_000_000 {
        23
    } else {
        27
    }
}

/// The number of stars in a sphere of radius `max_distance`, rounded down.
pub fn number_of_stars_in_sphere(max_distance: Length) -> (r: u64)
    requires
        max_distance@ <= MAX_SAMPLING_DISTANCE,
    ensures
        r == stars_in_sphere(max_distance@),
{
    if max_distance.meters <= 0 {
        return 0;
    }
    let d: i128 = (max_distance.meters * 1000) / METERS_PER_LIGHT_YEAR;
    proof {
        vstd::arithmetic::div_mod::lemma_div_is_ordered(
            max_distance@ * 1000,
            1_000_000_000_000_000_000_000_000,
            METERS_PER_LIGHT_YEAR as int,
        );
        vstd::arithmetic::div_mod::lemma_div_pos_is_pos(
            max_distance@ * 1000,
            METERS_PER_LIGHT_YEAR as int,
        );
        assert(1_000_000_000_000_000_000_000_000int / 9_460_730_472_580_800int == 105_700_083)
            by (nonlinear_arith);
    }
    assert(0 <= d <= 105_700_083);
    assert(0 <= d * d <= 11_172_507_546_206_889) by (nonlinear_arith)
        requires
            0 <= d <= 105_700_083,
    ;
    let square: i128 = d * d;
    assert(0 <= square * d <= 1_180_934_974_952_194_502_471_787) by (nonlinear_arith)
        requires
            0 <= d <= 105_700_083,
            0 <= square <= 11_172_507_546_206_889,
    ;
    let cube: i128 = square * d;
    let per_cube: i128 = 4 * STARS_PER_TEN_THOUSAND_LY_CUBED * PI_NANOS;
    assert(0 <= per_cube * cube <= per_cube * 1_180_934_974_952_194_502_471_787) by (nonlinear_arith)
        requires
            per_cube == 364_424_747_864,
            0 <= cube <= 1_180_934_974_952_194_502_471_787,
    ;
    let scaled: i128 = per_cube * cube;
    assert(d * d * d == cube);
    let stars: i128 = scaled / 30_000_000_000_000_000_000_000;
    proof {
        vstd::arithmetic::div_mod::lemma_div_pos_is_pos(
            scaled as int,
            30_000_000_000_000_000_000_000,
        );
        vstd::arithmetic::div_mod::lemma_div_is_ordered(
            scaled as int,
            430_361_930_490_732_637_016_767_902_248_512_968,
            30_000_000_000_000_000_000_000,
        );
        assert(430_361_930_490_732_637_016_767_902_248_512_968int
            / 30_000_000_000_000_000_000_000int == 14_345_397_683_024) by (nonlinear_arith);
    }
    stars as u64
}

/// The cube of `r`.
fn cube(r: u64) -> (c: u128)
    requires
        r <= RADIUS_STEPS,
    ensures
        c == r * r * r,
        c <= VOLUME_STEPS,
{
    assert(r * r <= 1_000_000 * 1_000_000) by (nonlinear_arith)
        requires
            r <= 1_000_000,
    ;
    assert((r * r) * r <= 1_000_000 * 1_000_000 * 1_000_000) by (nonlinear_arith)
        requires
            r <= 1_000_000,
            r * r <= 1_000_000 * 1_000_000,
    ;
    let s: u128 = (r as u128) * (r as u128);
    s * (r as u128)
}

/// The cube root of `u`, rounded down.
pub fn cube_root(u: u64) -> (r: u64)
    requires
        u < VOLUME_STEPS,
    ensures
        is_cube_root(u as int, r as int),
        r < RADIUS_STEPS,
{
    let mut low: u64 = 0;
    let mut high: u64 = RADIUS_STEPS;
    assert(0 * 0 * 0 == 0int);
    assert(1_000_000 * 1_000_000 * 1_000_000 == 1_000_000_000_000_000_000int);
    while high - low > 1
        invariant
            low < high <= RADIUS_STEPS,
            low * low * low <= u,
            u < high * high * high,
        decreases high - low,
    {
        let mid: u64 = low + (high - low) / 2;
        if cube(mid) <= u as u128 {
            low = mid;
        } else {
            high = mid;
        }
    }
    low
}

/// For a positive `d`, `x` reaches `y` times `d` exactly when `x` over
/// `d`, rounded down, reaches `y`.
proof fn lemma_quotient_reaches(x: int, y: int, d: int)
    requires
        d > 0,
    ensures
        (x >= y * d) == (x / d >= y),
{
    vstd::arithmetic::div_mod::lemma_fundamental_div_mod(x, d);
    vstd::arithmetic::div_mod::lemma_mod_bound(x, d);
    if x >= y * d {
        vstd::arithmetic::div_mod::lemma_div_is_ordered(y * d, x, d);
        vstd::arithmetic::div_mod::lemma_div_multiples_vanish(y, d);
        assert(y * d == d * y) by (nonlinear_arith);
    } else {
        let q = x / d;
        assert(q < y) by (nonlinear_arith)
            requires
                d * q + (x % d) < y * d,
                x % d >= 0,
                d > 0,
        ;
    }
}

/// Tells whether a star of the luminous intensity `luminosity` can be
/// seen from the distance `distance`.
pub fn is_visible(luminosity: Luminosity, distance: Length) -> (r: bool)
    requires
        0 <= distance@ <= MAX_SAMPLING_DISTANCE,
    ensures
        r == is_bright_enough(luminosity@, distance@),
{
    let i: i128 = luminosity.candela;
    let d: i128 = distance.meters;
    assert(d * d >= 0) by (nonlinear_arith);
    if i < 0 {
        assert(i * ILLUMINANCE_UNITS_PER_LUX < 0) by (nonlinear_arith)
            requires
                i < 0,
        ;
        assert(DIMMEST_ILLUMINANCE * (d * d) >= 0) by (nonlinear_arith)
            requires
                d * d >= 0,
        ;
        return false;
    }
    assert(i * ILLUMINANCE_UNITS_PER_LUX >= 0) by (nonlinear_arith)
        requires
            i >= 0,
    ;
    if d == 0 {
        assert(DIMMEST_ILLUMINANCE * (d * d) == 0) by (nonlinear_arith)
            requires
                d == 0,
        ;
        return true;
    }
    let q: i128 = i / d;
    let m: i128 = i % d;
    let rhs: i128 = DIMMEST_ILLUMINANCE * d;
    assert(0 <= m * ILLUMINANCE_UNITS_PER_LUX <= d * ILLUMINANCE_UNITS_PER_LUX)
        by (nonlinear_arith)
        requires
            0 <= m < d,
    ;
    let part: i128 = (m * ILLUMINANCE_UNITS_PER_LUX) / d;
    proof {
        let a = ILLUMINANCE_UNITS_PER_LUX as int;
        vstd::arithmetic::div_mod::lemma_fundamental_div_mod(i as int, d as int);
        assert(i * a == m * a + (q * a) * d) by (nonlinear_arith)
            requires
                i == d * q + m,
        ;
        vstd::arithmetic::div_mod::lemma_hoist_over_denominator(m * a, q * a, d as nat);
        assert(DIMMEST_ILLUMINANCE * (d * d) == rhs * d) by (nonlinear_arith)
            requires
                rhs == DIMMEST_ILLUMINANCE * d,
        ;
        lemma_quotient_reaches(i * a, rhs as int, d as int);
        vstd::arithmetic::div_mod::lemma_div_pos_is_pos(m * a, d as int);
        assert(q * a >= 0) by (nonlinear_arith)
            requires
                q >= 0,
                a > 0,
        ;
    }
    match q.checked_mul(ILLUMINANCE_UNITS_PER_LUX) {
        Some(whole) => match whole.checked_add(part) {
            Some(lhs) => lhs >= rhs,
            None => true,
        },
        None => true,
    }
}

/// The distance at `step` of the `RADIUS_STEPS` steps from the observer
/// to `max_distance`, rounded down to whole metres.
pub fn distance_at(max_distance: Length, step: u64) -> (r: Length)
    requires
        0 <= max_distance@ <= MAX_SAMPLING_DISTANCE,
        step < RADIUS_STEPS,
    ensures
        r@ == (max_distance@ * step) / (RADIUS_STEPS as int),
        0 <= r@ <= max_distance@,
{
    let s: i128 = step as i128;
    assert(0 <= max_distance@ * s <= max_distance@ * RADIUS_STEPS) by (nonlinear_arith)
        requires
            0 <= max_distance@,
            0 <= s < RADIUS_STEPS,
    ;
    assert(max_distance@ * RADIUS_STEPS <= MAX_SAMPLING_DISTANCE * RADIUS_STEPS)
        by (nonlinear_arith)
        requires
            max_distance@ <= MAX_SAMPLING_DISTANCE,
    ;
    let product: i128 = max_distance.meters * s;
    proof {
        vstd::arithmetic::div_mod::lemma_div_pos_is_pos(product as int, RADIUS_STEPS as int);
        vstd::arithmetic::div_mod::lemma_div_is_ordered(
            product as int,
            max_distance@ * RADIUS_STEPS,
            RADIUS_STEPS as int,
        );
        vstd::arithmetic::div_mod::lemma_div_multiples_vanish(
            max_distance@,
            RADIUS_STEPS as int,
        );
        assert(max_distance@ * RADIUS_STEPS == RADIUS_STEPS * max_distance@) by (nonlinear_arith);
    }
    Length { meters: product / (RADIUS_STEPS as i128) }
}

/// What the population is drawn from: the catalogue, for each of its rows
/// the state of the star that the row describes, and for each grid mass
/// its weight in the mass function.
pub struct PopulationModel {
    pub parsec_data: ParsecData,
    pub states: Vec<Vec<StarState>>,
    pub mass_weights: Vec<u64>,
}

/// The sum of the first weights is no more than the sum of all.
pub proof fn lemma_total_weight_grows(w: Seq<u64>, n: int)
    requires
        0 <= n <= w.len(),
    ensures
        0 <= total_weight(w.take(n)) <= total_weight(w),
    decreases w.len() - n,
{
    if n == w.len() {
        assert(w.take(n) =~= w);
        lemma_total_weight_is_not_negative(w);
    } else {
        lemma_total_weight_grows(w, n + 1);
        assert(w.take(n + 1).drop_last() =~= w.take(n));
        lemma_total_weight_is_not_negative(w.take(n));
    }
}

/// A sum of weights is not negative.
pub proof fn lemma_total_weight_is_not_negative(w: Seq<u64>)
    ensures
        0 <= total_weight(w),
    decreases w.len(),
{
    if w.len() > 0 {
        lemma_total_weight_is_not_negative(w.drop_last());
    }
}

/// `true` when `star` lies at a known distance of at most `max_distance`
/// metres, in a well-formed direction, and can be seen from that distance.
pub open spec fn is_seen_within(star: StarData, max_distance: int) -> bool {
    &&& star.distance.is_some()
    &&& 0 <= star.distance.unwrap()@ <= max_distance
    &&& star.luminosity.is_some()
    &&& is_bright_enough(star.luminosity.unwrap()@, star.distance.unwrap()@)
    &&& star.direction_in_ecliptic.wf()
}

/// A star that is seen within a positive distance lies less than one
/// hundredth beyond it.
pub proof fn lemma_seen_within_one_percent(star: StarData, max_distance: int)
    requires
        is_seen_within(star, max_distance),
        max_distance > 0,
    ensures
        100 * star.distance.unwrap()@ < 101 * max_distance,
{
}

impl PopulationModel {
    /// The states of the stars of the rows of slot `i`.
    pub open spec fn states_of(&self, i: int) -> Seq<StarState> {
        self.states@[i]@
    }

    /// There is a state for each row of the catalogue and a weight for
    /// each grid mass, and the weights add up to a positive value of
    /// `u64`.
    pub open spec fn wf(&self) -> bool {
        &&& self.parsec_data.wf()
        &&& self.states@.len() == GRID_LEN
        &&& forall|i: int|
            0 <= i < GRID_LEN ==> (#[trigger] self.states_of(i)).len() == self.parsec_data@[i].len()
        &&& self.mass_weights@.len() == GRID_LEN
        &&& 0 < total_weight(self.mass_weights@) <= u64::MAX
    }

    /// The row nearest in age to `age` of slot `slot`.
    pub open spec fn row(&self, slot: int, age: int) -> ParsecLine {
        self.parsec_data@[slot][closest_row(self.parsec_data@[slot], age)]
    }

    /// The state of the star of the row nearest in age to `age` of slot
    /// `slot`.
    pub open spec fn state(&self, slot: int, age: int) -> StarState {
        self.states_of(slot)[closest_row(self.parsec_data@[slot], age)]
    }

    /// `true` when a draw of the slot `slot`, the age `age`, the distance
    /// `distance` and the direction `direction` gives `star`: the star of
    /// the row nearest in age, placed there, where the slot has rows and
    /// that star can be seen from the distance; else none.
    pub open spec fn is_outcome(
        &self,
        star: Option<StarData>,
        slot: int,
        age: int,
        distance: Length,
        direction: Direction,
    ) -> bool {
        let seen = self.parsec_data@[slot].len() > 0 && is_bright_enough(
            self.state(slot, age).luminosity@,
            distance@,
        );
        &&& star.is_some() == seen
        &&& star.is_some() ==> is_star_of_row(
            star.unwrap(),
            self.row(slot, age),
            self.state(slot, age),
            distance,
            direction,
        )
    }

    /// `true` when a draw of the slot `slot`, the age of `years` years, the
    /// step `step` towards `max_distance` metres and the direction
    /// `direction` gives `star`.
    pub open spec fn is_outcome_of_draw(
        &self,
        star: Option<StarData>,
        max_distance: int,
        slot: int,
        years: int,
        step: int,
        direction: Direction,
    ) -> bool {
        self.is_outcome(
            star,
            slot,
            years * 1_000_000_000,
            Length { meters: ((max_distance * step) / (RADIUS_STEPS as int)) as i128 },
            direction,
        )
    }

    /// `true` when `star` is what some draw within `max_distance` metres
    /// gives: a draw of a slot that has a weight, of an age in whole years
    /// below the age of the thin disk, of a step along the radius, and of
    /// a well-formed direction.
    pub open spec fn is_drawn(&self, star: Option<StarData>, max_distance: int) -> bool {
        exists|slot: int, years: int, step: int, direction: Direction|
            0 <= slot < GRID_LEN && self.mass_weights@[slot] > 0 && 0 <= years
                < AGE_OF_MILKY_WAY_THIN_DISK && 0 <= step < RADIUS_STEPS && direction.wf()
                && #[trigger] self.is_outcome_of_draw(
                star,
                max_distance,
                slot,
                years,
                step,
                direction,
            )
    }

    /// `true` when each slot that has a weight has rows, and none of their
    /// stars has a negative luminous intensity: every draw is then seen
    /// from no distance.
    pub open spec fn is_seen_from_nearby(&self) -> bool {
        forall|slot: int|
            0 <= slot < GRID_LEN && #[trigger] self.mass_weights@[slot] > 0 ==> {
                &&& self.parsec_data@[slot].len() > 0
                &&& forall|k: int|
                    0 <= k < self.states_of(slot).len() ==> (#[trigger] self.states_of(
                        slot,
                    )[k]).luminosity@ >= 0
            }
    }

    /// Tells whether the model is well formed.
    pub fn is_valid(&self) -> (r: bool)
        requires
            self.parsec_data.wf(),
        ensures
            r == self.wf(),
    {
        if self.states.len() != GRID_LEN || self.mass_weights.len() != GRID_LEN {
            return false;
        }
        let mut i: usize = 0;
        while i < GRID_LEN
            invariant
                i <= GRID_LEN,
                self.parsec_data.wf(),
                self.states@.len() == GRID_LEN,
                forall|j: int|
                    0 <= j < i ==> (#[trigger] self.states_of(j)).len() == self.parsec_data@[j].len(),
            decreases GRID_LEN - i,
        {
            if self.states[i].len() != self.parsec_data.get_trajectory_via_index(i).len() {
                assert(self.states_of(i as int).len() != self.parsec_data@[i as int].len());
                return false;
            }
            i += 1;
        }
        let mut sum: u64 = 0;
        let mut k: usize = 0;
        assert(self.mass_weights@.take(0) =~= Seq::<u64>::empty());
        while k < GRID_LEN
            invariant
                k <= GRID_LEN,
                self.mass_weights@.len() == GRID_LEN,
                sum == total_weight(self.mass_weights@.take(k as int)),
            decreases GRID_LEN - k,
        {
            proof {
                assert(self.mass_weights@.take(k + 1).drop_last() =~= self.mass_weights@.take(
                    k as int,
                ));
                lemma_total_weight_grows(self.mass_weights@, k + 1);
            }
            sum = match sum.checked_add(self.mass_weights[k]) {
                Some(s) => s,
                None => {
                    return false;
                },
            };
            k += 1;
        }
        assert(self.mass_weights@.take(k as int) =~= self.mass_weights@);
        sum > 0
    }

    /// The star that a draw of the slot `mass_index`, the age
    /// `age_in_years`, the step `radius_step` towards `max_distance` and
    /// the direction `direction` gives, where it can be seen.
    pub fn star_if_visible(
        &self,
        max_distance: Length,
        mass_index: usize,
        age_in_years: Fixed,
        radius_step: u64,
        direction: Direction,
    ) -> (r: Option<StarData>)
        requires
            self.wf(),
            0 <= max_distance@ <= MAX_SAMPLING_DISTANCE,
            mass_index < GRID_LEN,
            radius_step < RADIUS_STEPS,
        ensures
            self.is_outcome(
                r,
                mass_index as int,
                age_in_years@,
                Length {
                    meters: ((max_distance@ * radius_step) / (RADIUS_STEPS as int)) as i128,
                },
                direction,
            ),
            r.is_some() && direction.wf() ==> is_seen_within(r.unwrap(), max_distance@),
    {
        let trajectory: &Vec<ParsecLine> = self.parsec_data.get_trajectory_via_index(mass_index);
        if trajectory.len() == 0 {
            return None;
        }
        let k: usize = ParsecData::get_closest_index(trajectory, age_in_years);
        assert(self.states_of(mass_index as int).len() == self.parsec_data@[mass_index as int].len());
        let state: StarState = self.states[mass_index][k];
        let distance: Length = distance_at(max_distance, radius_step);
        if !is_visible(state.luminosity, distance) {
            return None;
        }
        let mut star: StarData = trajectory[k].to_star_at_origin(state);
        star.distance = Some(distance);
        star.direction_in_ecliptic = direction;
        Some(star)
    }
}

/// The distribution over the slots of the mass grid that draws each slot
/// in proportion to its weight in the mass function.
pub fn get_mass_distribution(model: &PopulationModel) -> (r: IndexDistribution)
    requires
        model.wf(),
    ensures
        weights_of(r) == model.mass_weights@,
{
    weighted_index(&model.mass_weights).unwrap()
}

/// A random number from `-UNIT_RADIUS` to `UNIT_RADIUS`.
fn random_component(rng: &mut ThreadRng) -> (r: i64)
    ensures
        -UNIT_RADIUS <= r <= UNIT_RADIUS,
{
    let shifted: u64 = sample_between(rng, 0, 2_000_000_001);
    (shifted as i64) - UNIT_RADIUS
}

/// A random direction, each as likely as any other: the direction of a
/// random point of the cube around the unit ball, for which a point
/// outside the ball, and the centre, are passed over. After
/// 18,446,744,073,709,551,615 such points in a row the third axis is
/// given.
pub fn random_direction(rng: &mut ThreadRng) -> (r: Direction)
    ensures
        r.wf(),
{
    let mut rejected: u64 = 0;
    while rejected < u64::MAX
        invariant
            rejected <= u64::MAX,
        decreases u64::MAX - rejected,
    {
        let x: i64 = random_component(rng);
        let y: i64 = random_component(rng);
        let z: i64 = random_component(rng);
        if points_somewhere(x, y, z) {
            return Direction { x, y, z };
        }
        rejected += 1;
    }
    Direction::z_axis()
}

/// A random step along the radius of a sphere, drawn so that each part of
/// the sphere's volume is as likely as any other of its size: the cube
/// root of a random fraction of the volume.
pub fn random_radius_step(rng: &mut ThreadRng) -> (r: u64)
    ensures
        r < RADIUS_STEPS,
{
    let cubed: u64 = sample_between(rng, 0, VOLUME_STEPS);
    cube_root(cubed)
}

/// A random distance of at most `max_distance`, drawn so that each part
/// of the sphere of that radius is as likely as any other of its size.
pub fn random_distance(rng: &mut ThreadRng, max_distance: Length) -> (r: Length)
    requires
        0 <= max_distance@ <= MAX_SAMPLING_DISTANCE,
    ensures
        0 <= r@ <= max_distance@,
        exists|step: int|
            0 <= step < RADIUS_STEPS && r@ == #[trigger] step_distance(max_distance@, step),
{
    let step: u64 = random_radius_step(rng);
    let r: Length = distance_at(max_distance, step);
    assert(r@ == step_distance(max_distance@, step as int));
    r
}

/// One random star within `max_distance`, where it can be seen: a slot of
/// the mass grid drawn by its weight, an age drawn evenly from the age of
/// the thin disk, and a place drawn evenly from the sphere.
pub fn generate_visible_random_star(
    model: &PopulationModel,
    max_distance: Length,
    rng: &mut ThreadRng,
    mass_index_distr: &IndexDistribution,
) -> (r: Option<StarData>)
    requires
        model.wf(),
        0 <= max_distance@ <= MAX_SAMPLING_DISTANCE,
        weights_of(*mass_index_distr) == model.mass_weights@,
    ensures
        model.is_drawn(r, max_distance@),
        r.is_some() ==> is_seen_within(r.unwrap(), max_distance@),
        model.is_seen_up_to(max_distance@) ==> r.is_some(),
{
    let mass_index: usize = sample_index(rng, mass_index_distr);
    let age_in_years: u64 = sample_between(rng, 0, AGE_OF_MILKY_WAY_THIN_DISK);
    let radius_step: u64 = random_radius_step(rng);
    let direction: Direction = random_direction(rng);
    let age: Fixed = Fixed { nanos: (age_in_years as i128) * 1_000_000_000 };
    let r = model.star_if_visible(max_distance, mass_index, age, radius_step, direction);
    assert(model.is_outcome_of_draw(
        r,
        max_distance@,
        mass_index as int,
        age_in_years as int,
        radius_step as int,
        direction,
    ));
    proof {
        if model.is_seen_up_to(max_distance@) {
            lemma_seen_where_all_are(*model, r, max_distance@);
        }
    }
    r
}

/// Draws `number` stars within `max_distance` and appends those that can
/// be seen to `stars`.
pub fn generate_certain_number_of_random_stars(
    number: u64,
    model: &PopulationModel,
    max_distance: Length,
    rng: &mut ThreadRng,
    mass_index_distr: &IndexDistribution,
    stars: &mut Vec<StarData>,
)
    requires
        model.wf(),
        0 <= max_distance@ <= MAX_SAMPLING_DISTANCE,
        weights_of(*mass_index_distr) == model.mass_weights@,
        number <= MAX_CHUNKSIZE,
        forall|i: int|
            0 <= i < old(stars)@.len() ==> is_seen_within(old(stars)@[i], max_distance@)
                && model.is_drawn(Some(old(stars)@[i]), max_distance@),
    ensures
        forall|i: int|
            0 <= i < final(stars)@.len() ==> is_seen_within(final(stars)@[i], max_distance@)
                && model.is_drawn(Some(final(stars)@[i]), max_distance@),
        old(stars)@.len() <= final(stars)@.len() <= old(stars)@.len() + number,
        final(stars)@.take(old(stars)@.len() as int) == old(stars)@,
        model.is_seen_up_to(max_distance@) ==> final(stars)@.len() == old(stars)@.len() + number,
{
    let mut drawn: u64 = 0;
    while drawn < number
        invariant
            model.wf(),
            0 <= max_distance@ <= MAX_SAMPLING_DISTANCE,
            weights_of(*mass_index_distr) == model.mass_weights@,
            number <= MAX_CHUNKSIZE,
            drawn <= number,
            forall|i: int|
                0 <= i < stars@.len() ==> is_seen_within(stars@[i], max_distance@)
                    && model.is_drawn(Some(stars@[i]), max_distance@),
            old(stars)@.len() <= stars@.len() <= old(stars)@.len() + drawn,
            stars@.take(old(stars)@.len() as int) == old(stars)@,
            model.is_seen_up_to(max_distance@) ==> stars@.len() == old(stars)@.len() + drawn,
        decreases number - drawn,
    {
        let ghost before = stars@;
        if let Some(star) = generate_visible_random_star(
            model,
            max_distance,
            rng,
            mass_index_distr,
        ) {
            stars.push(star);
            assert(stars@.take(old(stars)@.len() as int) =~= before.take(
                old(stars)@.len() as int,
            ));
        }
        drawn += 1;
    }
}

/// The number of stars that the next go draws where `remaining` stars are
/// still to be drawn: all of them, but `MAX_CHUNKSIZE` at most.
pub open spec fn go_size(remaining: int) -> int {
    if remaining > MAX_CHUNKSIZE {
        MAX_CHUNKSIZE as int
    } else {
        remaining
    }
}

/// The number of stars that the next go draws where `remaining` stars are
/// still to be drawn.
pub fn next_go(remaining: u64) -> (r: u64)
    ensures
        r == go_size(remaining as int),
        r <= MAX_CHUNKSIZE,
        r <= remaining,
        remaining > 0 ==> r > 0,
{
    if remaining > MAX_CHUNKSIZE {
        MAX_CHUNKSIZE
    } else {
        remaining
    }
}

/// A random population of the stars within `max_distance` that can be
/// seen: as many draws as the sphere of that radius has stars, made in
/// goes of at most `MAX_CHUNKSIZE`, of which the stars that can be seen are
/// kept. Where every star of the catalogue can be seen from that far, all
/// draws are kept. A sphere of a negative radius has no stars.
pub fn generate_random_stars(max_distance: Length, model: &PopulationModel) -> (r: Result<
    Vec<StarData>,
    AstroUtilError,
>)
    requires
        model.wf(),
    ensures
        r.is_ok() == (max_distance@ <= MAX_SAMPLING_DISTANCE),
        r.is_err() ==> r.unwrap_err() == AstroUtilError::DistanceOutOfRange,
        r.is_ok() ==> forall|i: int|
            0 <= i < r.unwrap()@.len() ==> is_seen_within(r.unwrap()@[i], max_distance@)
                && model.is_drawn(Some(r.unwrap()@[i]), max_distance@),
        r.is_ok() ==> r.unwrap()@.len() <= stars_in_sphere(max_distance@),
        r.is_ok() && model.is_seen_up_to(max_distance@) ==> r.unwrap()@.len() == stars_in_sphere(
            max_distance@,
        ),
{
    if max_distance.meters > MAX_SAMPLING_DISTANCE {
        return Err(AstroUtilError::DistanceOutOfRange);
    }
    let number_of_stars_in_sphere: u64 = number_of_stars_in_sphere(max_distance);
    let mass_index_distr: IndexDistribution = get_mass_distribution(model);
    let mut rng: ThreadRng = rand::thread_rng();
    let mut remaining: u64 = number_of_stars_in_sphere;
    let mut stars: Vec<StarData> = Vec::new();
    while remaining > 0
        invariant
            model.wf(),
            max_distance@ <= MAX_SAMPLING_DISTANCE,
            number_of_stars_in_sphere > 0 ==> 0 <= max_distance@,
            weights_of(mass_index_distr) == model.mass_weights@,
            remaining <= number_of_stars_in_sphere,
            stars@.len() <= number_of_stars_in_sphere - remaining,
            model.is_seen_up_to(max_distance@) ==> stars@.len() == number_of_stars_in_sphere
                - remaining,
            forall|i: int|
                0 <= i < stars@.len() ==> is_seen_within(stars@[i], max_distance@)
                    && model.is_drawn(Some(stars@[i]), max_distance@),
        decreases remaining,
    {
        let go: u64 = next_go(remaining);
        generate_certain_number_of_random_stars(
            go,
            model,
            max_distance,
            &mut rng,
            &mass_index_distr,
            &mut stars,
        );
        remaining -= go;
    }
    Ok(stars)
}

/// `true` when `star` is the star `drawn`, set at no distance.
pub open spec fn is_placed_without_distance(star: StarData, drawn: StarData) -> bool {
    &&& star.distance == Some(Length { meters: 0 })
    &&& star.name == drawn.name
    &&& star.mass == drawn.mass
    &&& star.radius == drawn.radius
    &&& star.luminosity == drawn.luminosity
    &&& star.temperature == drawn.temperature
    &&& star.age == drawn.age
    &&& star.direction_in_ecliptic == drawn.direction_in_ecliptic
}

/// One random star that can be seen within `max_distance`, or one at no
/// distance where `max_distance` is `None`: draws until a star can be
/// seen, `max_attempts` times at most, and gives `None` where none of
/// those draws could. Without a greatest distance the star is drawn within
/// one metre and then set at no distance. Where every star of the
/// catalogue can be seen from as far as is drawn, the first draw gives the
/// star.
pub fn generate_random_star(
    max_distance: Option<Length>,
    model: &PopulationModel,
    max_attempts: u64,
) -> (r: Result<Option<StarData>, AstroUtilError>)
    requires
        model.wf(),
    ensures
        r.is_ok() == (max_distance.is_some() ==> 0 <= max_distance.unwrap()@
            <= MAX_SAMPLING_DISTANCE),
        r.is_err() ==> r.unwrap_err() == AstroUtilError::DistanceOutOfRange,
        r.is_ok() && r.unwrap().is_some() && max_distance.is_some() ==> is_seen_within(
            r.unwrap().unwrap(),
            max_distance.unwrap()@,
        ),
        r.is_ok() && r.unwrap().is_some() && max_distance.is_some() ==> model.is_drawn(
            r.unwrap(),
            max_distance.unwrap()@,
        ),
        r.is_ok() && r.unwrap().is_some() && max_distance.is_none() ==> exists|drawn: StarData|
            model.is_drawn(Some(drawn), 1) && #[trigger] is_placed_without_distance(
                r.unwrap().unwrap(),
                drawn,
            ),
        max_attempts == 0 ==> r.is_err() || r.unwrap().is_none(),
        max_distance.is_none() && max_attempts > 0 && model.is_seen_from_nearby() ==> r.is_ok()
            && r.unwrap().is_some(),
        max_distance.is_some() && 0 <= max_distance.unwrap()@ <= MAX_SAMPLING_DISTANCE
            && max_attempts > 0 && model.is_seen_up_to(max_distance.unwrap()@) ==> r.is_ok()
            && r.unwrap().is_some(),
{
    let max_distance_or_1: Length = match max_distance {
        Some(d) => d,
        None => Length { meters: 1 },
    };
    if max_distance_or_1.meters < 0 || max_distance_or_1.meters > MAX_SAMPLING_DISTANCE {
        return Err(AstroUtilError::DistanceOutOfRange);
    }
    let mass_index_distr: IndexDistribution = get_mass_distribution(model);
    let mut rng: ThreadRng = rand::thread_rng();
    let mut attempts: u64 = 0;
    while attempts < max_attempts
        invariant
            model.wf(),
            0 <= max_distance_or_1@ <= MAX_SAMPLING_DISTANCE,
            weights_of(mass_index_distr) == model.mass_weights@,
            attempts <= max_attempts,
            max_distance.is_some() ==> max_distance.unwrap() == max_distance_or_1,
            max_distance.is_none() ==> max_distance_or_1@ == 1,
            max_distance.is_none() && model.is_seen_from_nearby() ==> attempts == 0,
            max_distance.is_some() && model.is_seen_up_to(max_distance_or_1@) ==> attempts == 0,
        decreases max_attempts - attempts,
    {
        let drawn: Option<StarData> = generate_visible_random_star(
            model,
            max_distance_or_1,
            &mut rng,
            &mass_index_distr,
        );
        proof {
            if max_distance.is_none() && model.is_seen_from_nearby() {
                lemma_seen_from_no_distance(*model, drawn);
            }
        }
        if let Some(star) = drawn {
            let placed: StarData = place_without_distance(star, max_distance.is_none());
            proof {
                if max_distance.is_none() {
                    assert(model.is_drawn(Some(star), 1));
                    assert(is_placed_without_distance(placed, star));
                    assert(exists|drawn: StarData|
                        model.is_drawn(Some(drawn), 1) && #[trigger] is_placed_without_distance(
                            placed,
                            drawn,
                        ));
                }
            }
            return Ok(Some(placed));
        }
        attempts += 1;
    }
    Ok(None)
}

/// Where every draw is seen from no distance, a draw within one metre
/// gives a star.
pub proof fn lemma_seen_from_no_distance(model: PopulationModel, star: Option<StarData>)
    requires
        model.wf(),
        model.is_seen_from_nearby(),
        model.is_drawn(star, 1),
    ensures
        star.is_some(),
{
    let (slot, years, step, direction) = choose|
        slot: int,
        years: int,
        step: int,
        direction: Direction,
    |
        0 <= slot < GRID_LEN && model.mass_weights@[slot] > 0 && 0 <= years
            < AGE_OF_MILKY_WAY_THIN_DISK && 0 <= step < RADIUS_STEPS && direction.wf()
            && #[trigger] model.is_outcome_of_draw(star, 1, slot, years, step, direction);
    let age = years * 1_000_000_000;
    let track = model.parsec_data@[slot];
    assert(model.mass_weights@[slot] > 0);
    lemma_closest_row_exists(track, age);
    let k = closest_row(track, age);
    assert(model.states_of(slot).len() == track.len());
    assert(model.states_of(slot)[k].luminosity@ >= 0);
    assert((1 * step) / (RADIUS_STEPS as int) == 0) by {
        vstd::arithmetic::div_mod::lemma_basic_div(step, RADIUS_STEPS as int);
    }
    let candela = model.state(slot, age).luminosity@;
    assert(candela * ILLUMINANCE_UNITS_PER_LUX >= 0) by (nonlinear_arith)
        requires
            candela >= 0,
    ;
    assert(DIMMEST_ILLUMINANCE * (0int * 0int) == 0) by (nonlinear_arith);
}

/// The star `star`, set at no distance where `at_origin` holds.
pub fn place_without_distance(star: StarData, at_origin: bool) -> (r: StarData)
    ensures
        at_origin ==> is_placed_without_distance(r, star),
        !at_origin ==> r == star,
        r.name == star.name,
        r.mass == star.mass,
        r.radius == star.radius,
        r.luminosity == star.luminosity,
        r.temperature == star.temperature,
        r.age == star.age,
        r.direction_in_ecliptic == star.direction_in_ecliptic,
{
    let mut star = star;
    if at_origin {
        star.distance = Some(Length { meters: 0 });
    }
    star
}

/// The distance in metres at `step` of the `RADIUS_STEPS` steps from the
/// observer to `max_distance` metres, rounded down.
pub open spec fn step_distance(max_distance: int, step: int) -> int {
    (max_distance * step) / (RADIUS_STEPS as int)
}

impl PopulationModel {
    /// `true` when each slot that has a weight has rows, and each of their
    /// stars can be seen from the last step towards `max_distance` metres:
    /// every draw within that distance is then seen.
    pub open spec fn is_seen_up_to(&self, max_distance: int) -> bool {
        forall|slot: int|
            0 <= slot < GRID_LEN && #[trigger] self.mass_weights@[slot] > 0 ==> {
                &&& self.parsec_data@[slot].len() > 0
                &&& forall|k: int|
                    0 <= k < self.states_of(slot).len() ==> is_bright_enough(
                        (#[trigger] self.states_of(slot)[k]).luminosity@,
                        step_distance(max_distance, RADIUS_STEPS - 1),
                    )
            }
    }
}

/// A star that is seen from afar is seen from nearer by.
pub proof fn lemma_seen_from_nearer(candela: int, near: int, far: int)
    requires
        0 <= near <= far,
        is_bright_enough(candela, far),
    ensures
        is_bright_enough(candela, near),
{
    assert(near * near <= far * far) by (nonlinear_arith)
        requires
            0 <= near <= far,
    ;
    assert(DIMMEST_ILLUMINANCE * (near * near) <= DIMMEST_ILLUMINANCE * (far * far))
        by (nonlinear_arith)
        requires
            near * near <= far * far,
    ;
}

/// No step lies farther out than the last.
pub proof fn lemma_last_step_is_farthest(max_distance: int, step: int)
    requires
        0 <= max_distance,
        0 <= step < RADIUS_STEPS,
    ensures
        0 <= step_distance(max_distance, step) <= step_distance(max_distance, RADIUS_STEPS - 1),
{
    assert(0 <= max_distance * step <= max_distance * (RADIUS_STEPS - 1)) by (nonlinear_arith)
        requires
            0 <= max_distance,
            0 <= step <= RADIUS_STEPS - 1,
    ;
    vstd::arithmetic::div_mod::lemma_div_pos_is_pos(max_distance * step, RADIUS_STEPS as int);
    vstd::arithmetic::div_mod::lemma_div_is_ordered(
        max_distance * step,
        max_distance * (RADIUS_STEPS - 1),
        RADIUS_STEPS as int,
    );
}

/// Where every star of the catalogue is seen from the last step towards
/// `max_distance` metres, a draw within that distance gives a star.
pub proof fn lemma_seen_where_all_are(
    model: PopulationModel,
    star: Option<StarData>,
    max_distance: int,
)
    requires
        model.wf(),
        0 <= max_distance <= MAX_SAMPLING_DISTANCE,
        model.is_seen_up_to(max_distance),
        model.is_drawn(star, max_distance),
    ensures
        star.is_some(),
{
    let (slot, years, step, direction) = choose|
        slot: int,
        years: int,
        step: int,
        direction: Direction,
    |
        0 <= slot < GRID_LEN && model.mass_weights@[slot] > 0 && 0 <= years
            < AGE_OF_MILKY_WAY_THIN_DISK && 0 <= step < RADIUS_STEPS && direction.wf()
            && #[trigger] model.is_outcome_of_draw(star, max_distance, slot, years, step, direction);
    let age = years * 1_000_000_000;
    let track = model.parsec_data@[slot];
    assert(model.mass_weights@[slot] > 0);
    lemma_closest_row_exists(track, age);
    let k = closest_row(track, age);
    assert(model.states_of(slot).len() == track.len());
    let candela = model.states_of(slot)[k].luminosity@;
    assert(is_bright_enough(candela, step_distance(max_distance, RADIUS_STEPS - 1)));
    lemma_last_step_is_farthest(max_distance, step);
    lemma_seen_from_nearer(
        candela,
        step_distance(max_distance, step),
        step_distance(max_distance, RADIUS_STEPS - 1),
    );
    assert(step_distance(max_distance, step) <= max_distance) by {
        vstd::arithmetic::div_mod::lemma_div_is_ordered(
            max_distance * (RADIUS_STEPS - 1),
            max_distance * RADIUS_STEPS,
            RADIUS_STEPS as int,
        );
        vstd::arithmetic::div_mod::lemma_div_multiples_vanish(max_distance, RADIUS_STEPS as int);
        assert(max_distance * (RADIUS_STEPS - 1) <= max_distance * RADIUS_STEPS)
            by (nonlinear_arith)
            requires
                0 <= max_distance,
        ;
        assert(max_distance * RADIUS_STEPS == RADIUS_STEPS * max_distance) by (nonlinear_arith);
    }
    let distance = Length { meters: step_distance(max_distance, step) as i128 };
    assert(distance@ == step_distance(max_distance, step));
    assert(model.state(slot, age).luminosity@ == candela);
    assert(model.is_outcome(star, slot, age, distance, direction));
}

} // verus!
