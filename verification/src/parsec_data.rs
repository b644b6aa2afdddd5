//! The catalogue of tabulated evolutionary tracks, one per grid mass.

use vstd::prelude::*;
use crate::fixed::Fixed;
use crate::fixed::abs;
use crate::fixed::trunc_div;
use crate::fixed::is_closer;
use crate::fixed::NANOS_PER_UNIT;
use crate::decimal::words;
use crate::decimal::word_views;
use crate::decimal::parse_decimal;
use crate::decimal::parse_number;
use crate::decimal::split_whitespace;
use crate::error::AstroUtilError;
use crate::direction::Direction;
use crate::direction::UNIT_RADIUS;
use crate::fixed::fits_i128;
use crate::fixed::scaled_up;
use crate::length::Length;
use crate::luminosity::Luminosity;
use crate::mass::mass_fits;
use crate::mass::Mass;
use crate::star_data::StarData;
use crate::temperature::Temperature;
use crate::mass::KILOGRAMS_PER_NANO_SOLAR_MASS;
use crate::mass_grid::GRID_LEN;
use crate::time::Time;
use crate::time::SECONDS_PER_YEAR;
use crate::mass_grid::closest_slot;
use crate::mass_grid::is_closest_slot;
use crate::mass_grid::closest_mass_index;

verus! {

/// One tabulated row: the state of a star of one mass at one age.
#[derive(Clone, Copy, Debug, PartialEq, Eq, Structural)]
pub struct ParsecLine {
    /// Mass in solar masses.
    pub mass: Fixed,
    /// Age in years.
    pub age: Fixed,
    /// Decimal logarithm of the luminosity in solar luminosities.
    pub log_l: Fixed,
    /// Decimal logarithm of the effective temperature in kelvin.
    pub log_te: Fixed,
    /// Decimal logarithm of the radius in centimetres.
    pub log_r: Fixed,
}

/// What the tabulated logarithms of a row stand for: the luminous
/// intensity, the temperature and the radius of its star.
#[derive(Clone, Copy, Debug, PartialEq, Eq, Structural)]
pub struct StarState {
    pub luminosity: Luminosity,
    pub temperature: Temperature,
    pub radius: Length,
}

/// The mass of the star of the row `line`, where it is a value of the
/// mass type.
pub open spec fn mass_of_row(line: ParsecLine) -> Option<Mass> {
    if mass_fits(line.mass@, KILOGRAMS_PER_NANO_SOLAR_MASS as int) {
        Some(Mass { kilograms: (line.mass@ * KILOGRAMS_PER_NANO_SOLAR_MASS) as i128 })
    } else {
        None
    }
}

/// The age of the star of the row `line`, where it is a value of the time
/// type.
pub open spec fn age_of_row(line: ParsecLine) -> Option<Time> {
    if fits_i128(line.age@ * SECONDS_PER_YEAR) {
        Some(Time { seconds: scaled_up(line.age@, SECONDS_PER_YEAR as int) as i128 })
    } else {
        None
    }
}

/// `true` when `star` is the star of the row `line` in the state `state`,
/// without a name, seen at `distance` in `direction`.
pub open spec fn is_star_of_row(
    star: StarData,
    line: ParsecLine,
    state: StarState,
    distance: Length,
    direction: Direction,
) -> bool {
    &&& star.name@.len() == 0
    &&& star.mass == mass_of_row(line)
    &&& star.age == age_of_row(line)
    &&& star.luminosity == Some(state.luminosity)
    &&& star.temperature == Some(state.temperature)
    &&& star.radius == Some(state.radius)
    &&& star.distance == Some(distance)
    &&& star.direction_in_ecliptic == direction
}

impl ParsecLine {
    /// The star of this row in the state `state`, at the observer's place
    /// and in the direction of the third axis.
    pub fn to_star_at_origin(&self, state: StarState) -> (r: StarData)
        ensures
            is_star_of_row(
                r,
                *self,
                state,
                Length { meters: 0 },
                Direction { x: 0, y: 0, z: UNIT_RADIUS },
            ),
    {
        StarData {
            name: String::new(),
            mass: self.get_mass(),
            radius: Some(state.radius),
            luminosity: Some(state.luminosity),
            temperature: Some(state.temperature),
            age: self.get_age(),
            distance: Some(Length::zero()),
            direction_in_ecliptic: Direction::z_axis(),
        }
    }

    /// The mass of the star of this row, where it is a value of the mass
    /// type.
    pub fn get_mass(&self) -> (r: Option<Mass>)
        ensures
            r == mass_of_row(*self),
    {
        if Mass::fits(self.mass, KILOGRAMS_PER_NANO_SOLAR_MASS) {
            Some(Mass::from_solar_masses(self.mass))
        } else {
            None
        }
    }

    /// The age of the star of this row, where it is a value of the time
    /// type.
    pub fn get_age(&self) -> (r: Option<Time>)
        ensures
            r == age_of_row(*self),
    {
        if self.age.nanos.checked_mul(SECONDS_PER_YEAR).is_some() {
            Some(Time::from_years(self.age))
        } else {
            None
        }
    }
}

/// The tracks of all grid masses, slot by slot.
pub struct ParsecData {
    data: Vec<Vec<ParsecLine>>,
}

/// How far the age of row `i` of `trajectory` lies from `target`.
pub open spec fn age_distance(trajectory: Seq<ParsecLine>, target: int, i: int) -> int {
    abs(trajectory[i].age@ - target)
}

/// `k` is the row of `trajectory` whose age is nearest to `target`; of
/// several rows equally near, it is the first.
pub open spec fn is_closest_row(trajectory: Seq<ParsecLine>, target: int, k: int) -> bool {
    &&& 0 <= k < trajectory.len()
    &&& forall|j: int|
        0 <= j < k ==> age_distance(trajectory, target, k) < #[trigger] age_distance(
            trajectory,
            target,
            j,
        )
    &&& forall|j: int|
        k < j < trajectory.len() ==> age_distance(trajectory, target, k)
            <= #[trigger] age_distance(trajectory, target, j)
}

/// The row of `trajectory` whose age is nearest to `target`.
pub open spec fn closest_row(trajectory: Seq<ParsecLine>, target: int) -> int {
    choose|k: int| is_closest_row(trajectory, target, k)
}

/// `true` when a star of `solar_nanos` billionths of a solar mass is lighter
/// than `kilograms`.
pub open spec fn is_lighter(solar_nanos: int, kilograms: int) -> bool {
    solar_nanos * KILOGRAMS_PER_NANO_SOLAR_MASS < kilograms
}

/// The row of track `slot` whose age is nearest to `age`.
pub open spec fn row_at(tracks: Seq<Seq<ParsecLine>>, slot: int, age: int) -> ParsecLine {
    tracks[slot][closest_row(tracks[slot], age)]
}

/// The first slot from `slot` upwards whose row nearest to `age` is not
/// lighter than `kilograms`, or the last slot where every such row is.
pub open spec fn settled_slot(
    tracks: Seq<Seq<ParsecLine>>,
    kilograms: int,
    age: int,
    slot: int,
) -> int
    decreases GRID_LEN - slot,
{
    if 0 <= slot < GRID_LEN - 1 && is_lighter(row_at(tracks, slot, age).mass@, kilograms) {
        settled_slot(tracks, kilograms, age, slot + 1)
    } else {
        slot
    }
}

/// Column of the mass among the words of a row.
pub const MASS_INDEX: usize = 1;

/// Column of the age among the words of a row.
pub const AGE_INDEX: usize = 2;

/// Column of the logarithm of the luminosity among the words of a row.
pub const LOG_L_INDEX: usize = 3;

/// Column of the logarithm of the temperature among the words of a row.
pub const LOG_TE_INDEX: usize = 4;

/// Column of the logarithm of the radius among the words of a row.
pub const LOG_R_INDEX: usize = 5;

/// The slot that a file's rows belong to once the row with the words `w`
/// is read: the slot known `before`, else the slot nearest to the mass of
/// this row, where the row has a mass that is a number.
pub open spec fn slot_after(w: Seq<Seq<u8>>, before: Option<usize>) -> Option<usize> {
    if before.is_some() || w.len() <= MASS_INDEX {
        before
    } else {
        match parse_decimal(w[MASS_INDEX as int]) {
            Some(m) => Some(closest_slot(m) as usize),
            None => None,
        }
    }
}

/// The tabulated row that the words `w` spell, where the five columns are
/// there and each is a number.
pub open spec fn row_of(w: Seq<Seq<u8>>) -> Option<ParsecLine> {
    if w.len() > LOG_R_INDEX && parse_decimal(w[MASS_INDEX as int]).is_some() && parse_decimal(
        w[AGE_INDEX as int],
    ).is_some() && parse_decimal(w[LOG_L_INDEX as int]).is_some() && parse_decimal(
        w[LOG_TE_INDEX as int],
    ).is_some() && parse_decimal(w[LOG_R_INDEX as int]).is_some() {
        Some(
            ParsecLine {
                mass: Fixed { nanos: parse_decimal(w[MASS_INDEX as int]).unwrap() as i128 },
                age: Fixed { nanos: parse_decimal(w[AGE_INDEX as int]).unwrap() as i128 },
                log_l: Fixed { nanos: parse_decimal(w[LOG_L_INDEX as int]).unwrap() as i128 },
                log_te: Fixed { nanos: parse_decimal(w[LOG_TE_INDEX as int]).unwrap() as i128 },
                log_r: Fixed { nanos: parse_decimal(w[LOG_R_INDEX as int]).unwrap() as i128 },
            },
        )
    } else {
        None
    }
}

/// `true` when the row with the words `w` is broken: it has no mass
/// column, or its slot is known and it lacks one of the other columns, or
/// it is a full row for a slot that the grid does not have.
pub open spec fn is_broken_row(w: Seq<Seq<u8>>, before: Option<usize>) -> bool {
    ||| w.len() <= MASS_INDEX
    ||| slot_after(w, before).is_some() && w.len() <= LOG_R_INDEX
    ||| slot_after(w, before).is_some() && row_of(w).is_some() && slot_after(w, before).unwrap()
        >= GRID_LEN
}

/// The tracks once the row with the words `w` is read: a full row of
/// numbers whose slot is known joins the track of that slot, any other row
/// changes nothing.
pub open spec fn tracks_after(
    tracks: Seq<Seq<ParsecLine>>,
    w: Seq<Seq<u8>>,
    before: Option<usize>,
) -> Seq<Seq<ParsecLine>> {
    if !is_broken_row(w, before) && slot_after(w, before).is_some() && row_of(w).is_some() {
        let p = slot_after(w, before).unwrap() as int;
        tracks.update(p, tracks[p].push(row_of(w).unwrap()))
    } else {
        tracks
    }
}

/// The tracks once the rows of `lines` from row `i` on are read, up to the
/// first broken row, where the slot known so far is `slot`.
pub open spec fn tracks_after_rows(
    tracks: Seq<Seq<ParsecLine>>,
    lines: Seq<Seq<u8>>,
    i: int,
    slot: Option<usize>,
) -> Seq<Seq<ParsecLine>>
    decreases lines.len() - i,
{
    if i < 0 || i >= lines.len() || is_broken_row(words(lines[i]), slot) {
        tracks
    } else {
        tracks_after_rows(
            tracks_after(tracks, words(lines[i]), slot),
            lines,
            i + 1,
            slot_after(words(lines[i]), slot),
        )
    }
}

/// `true` when a row of `lines` from row `i` on is broken, where the slot
/// known so far is `slot`.
pub open spec fn has_broken_row(lines: Seq<Seq<u8>>, i: int, slot: Option<usize>) -> bool
    decreases lines.len() - i,
{
    if i < 0 || i >= lines.len() {
        false
    } else if is_broken_row(words(lines[i]), slot) {
        true
    } else {
        has_broken_row(lines, i + 1, slot_after(words(lines[i]), slot))
    }
}

/// The rows of each file of `files`, each row as its bytes.
pub open spec fn file_views(files: Seq<Vec<Vec<u8>>>) -> Seq<Seq<Seq<u8>>> {
    Seq::new(files.len(), |i: int| word_views(files[i]@))
}

/// The tracks of a catalogue that no row was read into.
pub open spec fn empty_tracks() -> Seq<Seq<ParsecLine>> {
    Seq::new(GRID_LEN as nat, |i: int| Seq::<ParsecLine>::empty())
}

/// `true` when a file of `files` from file `i` on has a broken row.
pub open spec fn has_broken_file(files: Seq<Seq<Seq<u8>>>, i: int) -> bool
    decreases files.len() - i,
{
    if i < 0 || i >= files.len() {
        false
    } else if has_broken_row(files[i], 0, None) {
        true
    } else {
        has_broken_file(files, i + 1)
    }
}

/// The tracks once the files of `files` from file `i` on are read, each
/// with a slot of its own.
pub open spec fn tracks_after_files(
    tracks: Seq<Seq<ParsecLine>>,
    files: Seq<Seq<Seq<u8>>>,
    i: int,
) -> Seq<Seq<ParsecLine>>
    decreases files.len() - i,
{
    if i < 0 || i >= files.len() {
        tracks
    } else {
        tracks_after_files(tracks_after_rows(tracks, files[i], 0, None), files, i + 1)
    }
}

/// Among the first `n` rows of a track one is the closest to a given age.
proof fn lemma_closest_row_of_prefix(trajectory: Seq<ParsecLine>, target: int, n: int) -> (k: int)
    requires
        1 <= n <= trajectory.len(),
    ensures
        is_closest_row(trajectory.take(n), target, k),
    decreases n,
{
    let after = trajectory.take(n);
    if n == 1 {
        0
    } else {
        let before = trajectory.take(n - 1);
        let best = lemma_closest_row_of_prefix(trajectory, target, n - 1);
        assert forall|j: int| 0 <= j < n - 1 implies #[trigger] age_distance(before, target, j)
            == age_distance(after, target, j) by {}
        if age_distance(after, target, n - 1) < age_distance(after, target, best) {
            assert forall|j: int| 0 <= j < n - 1 implies age_distance(after, target, n - 1)
                < #[trigger] age_distance(after, target, j) by {
                assert(age_distance(before, target, j) == age_distance(after, target, j));
                if j < best {
                    assert(age_distance(before, target, best) < age_distance(before, target, j));
                } else if j > best {
                    assert(age_distance(before, target, best) <= age_distance(before, target, j));
                }
            }
            n - 1
        } else {
            assert forall|j: int| best < j < n implies age_distance(after, target, best)
                <= #[trigger] age_distance(after, target, j) by {
                if j < n - 1 {
                    assert(age_distance(before, target, best) <= age_distance(before, target, j));
                }
            }
            assert forall|j: int| 0 <= j < best implies age_distance(after, target, best)
                < #[trigger] age_distance(after, target, j) by {
                assert(age_distance(before, target, best) < age_distance(before, target, j));
            }
            best
        }
    }
}

/// A track that has rows has a row that is the closest to a given age.
pub proof fn lemma_closest_row_exists(trajectory: Seq<ParsecLine>, target: int)
    requires
        trajectory.len() > 0,
    ensures
        is_closest_row(trajectory, target, closest_row(trajectory, target)),
{
    let k = lemma_closest_row_of_prefix(trajectory, target, trajectory.len() as int);
    assert(trajectory.take(trajectory.len() as int) =~= trajectory);
}

/// At most one row is the closest to a given age.
pub proof fn lemma_closest_row_unique(trajectory: Seq<ParsecLine>, target: int, a: int, b: int)
    requires
        is_closest_row(trajectory, target, a),
        is_closest_row(trajectory, target, b),
    ensures
        a == b,
{
    if a < b {
        assert(age_distance(trajectory, target, b) < age_distance(trajectory, target, a));
        assert(age_distance(trajectory, target, a) <= age_distance(trajectory, target, b));
    } else if b < a {
        assert(age_distance(trajectory, target, a) < age_distance(trajectory, target, b));
        assert(age_distance(trajectory, target, b) <= age_distance(trajectory, target, a));
    }
}

/// Tells whether a star of `solar_masses` is lighter than `mass`.
pub fn lighter_than(solar_masses: Fixed, mass: Mass) -> (r: bool)
    ensures
        r == is_lighter(solar_masses@, mass@),
{
    match solar_masses.nanos.checked_mul(KILOGRAMS_PER_NANO_SOLAR_MASS) {
        Some(kilograms) => kilograms < mass.kilograms,
        None => {
            assert(solar_masses@ < 0 ==> solar_masses@ * KILOGRAMS_PER_NANO_SOLAR_MASS < 0)
                by (nonlinear_arith);
            assert(solar_masses@ >= 0 ==> solar_masses@ * KILOGRAMS_PER_NANO_SOLAR_MASS >= 0)
                by (nonlinear_arith);
            solar_masses.nanos < 0
        },
    }
}

impl ParsecData {
    /// The tracks, slot by slot, each as the sequence of its rows.
    pub closed spec fn view(&self) -> Seq<Seq<ParsecLine>> {
        Seq::new(self.data@.len(), |i: int| self.data@[i]@)
    }

    /// The catalogue has one track for each grid mass.
    pub open spec fn wf(&self) -> bool {
        self@.len() == GRID_LEN
    }

    /// Every track holds at least one row.
    pub open spec fn is_complete(&self) -> bool {
        forall|i: int| 0 <= i < self@.len() ==> (#[trigger] self@[i]).len() > 0
    }

    /// A catalogue whose tracks are all empty.
    pub fn new() -> (r: ParsecData)
        ensures
            r.wf(),
            forall|i: int| 0 <= i < GRID_LEN ==> (#[trigger] r@[i]).len() == 0,
    {
        let mut data: Vec<Vec<ParsecLine>> = Vec::with_capacity(GRID_LEN);
        let mut i: usize = 0;
        while i < GRID_LEN
            invariant
                i <= GRID_LEN,
                data@.len() == i,
                forall|j: int| 0 <= j < i ==> (#[trigger] data@[j])@.len() == 0,
            decreases GRID_LEN - i,
        {
            data.push(Vec::new());
            i += 1;
        }
        ParsecData { data }
    }

    /// The slot whose grid mass is nearest to `mass`, given in solar
    /// masses; of two slots equally near, the higher one.
    pub fn get_closest_mass_index(mass: Fixed) -> (r: usize)
        ensures
            is_closest_slot(mass@, r as int),
            r == closest_slot(mass@),
            r < GRID_LEN,
    {
        closest_mass_index(mass)
    }

    /// The track of slot `i`.
    pub fn get_trajectory_via_index(&self, i: usize) -> (r: &Vec<ParsecLine>)
        requires
            self.wf(),
            i < GRID_LEN,
        ensures
            r@ == self@[i as int],
    {
        &self.data[i]
    }

    /// The index of the row of `trajectory` whose age is nearest to
    /// `actual_age_in_years`; of several rows equally near, the first.
    pub fn get_closest_index(trajectory: &Vec<ParsecLine>, actual_age_in_years: Fixed) -> (k: usize)
        requires
            trajectory@.len() > 0,
        ensures
            is_closest_row(trajectory@, actual_age_in_years@, k as int),
            k == closest_row(trajectory@, actual_age_in_years@),
    {
        let target: i128 = actual_age_in_years.nanos;
        let mut age_index: usize = 0;
        let mut i: usize = 1;
        while i < trajectory.len()
            invariant
                1 <= i <= trajectory@.len(),
                age_index < i,
                target == actual_age_in_years@,
                is_closest_row(trajectory@.take(i as int), target as int, age_index as int),
            decreases trajectory@.len() - i,
        {
            let ghost before = trajectory@.take(i as int);
            let ghost after = trajectory@.take(i + 1);
            let ghost best = age_index as int;
            if is_closer(target, trajectory[i].age.nanos, trajectory[age_index].age.nanos) {
                age_index = i;
            }
            proof {
                assert forall|j: int| 0 <= j <= i implies age_distance(after, target as int, j)
                    == age_distance(trajectory@, target as int, j) by {}
                assert forall|j: int| 0 <= j < i implies #[trigger] age_distance(
                    before,
                    target as int,
                    j,
                ) == age_distance(trajectory@, target as int, j) by {}
                assert forall|j: int| 0 <= j < age_index implies age_distance(
                    after,
                    target as int,
                    age_index as int,
                ) < #[trigger] age_distance(after, target as int, j) by {
                    assert(age_distance(before, target as int, j) == age_distance(
                        trajectory@,
                        target as int,
                        j,
                    ));
                    if j < best {
                        assert(age_distance(before, target as int, best) < age_distance(
                            before,
                            target as int,
                            j,
                        ));
                    } else if j > best {
                        assert(age_distance(before, target as int, best) <= age_distance(
                            before,
                            target as int,
                            j,
                        ));
                    }
                }
                assert forall|j: int| age_index < j < after.len() implies age_distance(
                    after,
                    target as int,
                    age_index as int,
                ) <= #[trigger] age_distance(after, target as int, j) by {
                    if j < i {
                        assert(age_distance(before, target as int, best) <= age_distance(
                            before,
                            target as int,
                            j,
                        ));
                    }
                }
            }
            i += 1;
        }
        proof {
            assert(trajectory@.take(i as int) =~= trajectory@);
            lemma_closest_row_unique(
                trajectory@,
                target as int,
                age_index as int,
                closest_row(trajectory@, target as int),
            );
        }
        age_index
    }

    /// The row of `trajectory` whose age is nearest to
    /// `actual_age_in_years`; of several rows equally near, the first.
    pub fn get_closest_params(trajectory: &Vec<ParsecLine>, actual_age_in_years: Fixed) -> (r:
        &ParsecLine)
        requires
            trajectory@.len() > 0,
        ensures
            is_closest_row(
                trajectory@,
                actual_age_in_years@,
                closest_row(trajectory@, actual_age_in_years@),
            ),
            *r == trajectory@[closest_row(trajectory@, actual_age_in_years@)],
    {
        let k: usize = Self::get_closest_index(trajectory, actual_age_in_years);
        &trajectory[k]
    }

    /// The age in years of the last row of `trajectory`: how old the stars
    /// of that track grow.
    pub fn get_life_expectancy_in_years(trajectory: &Vec<ParsecLine>) -> (r: Fixed)
        requires
            trajectory@.len() > 0,
        ensures
            r == trajectory@.last().age,
    {
        trajectory[trajectory.len() - 1].age
    }

    /// Tells whether every track holds at least one row.
    pub fn has_all_trajectories(&self) -> (r: bool)
        requires
            self.wf(),
        ensures
            r == self.is_complete(),
    {
        let mut i: usize = 0;
        while i < GRID_LEN
            invariant
                i <= GRID_LEN,
                self.wf(),
                forall|j: int| 0 <= j < i ==> (#[trigger] self@[j]).len() > 0,
            decreases GRID_LEN - i,
        {
            if self.data[i].len() == 0 {
                assert(self@[i as int].len() == 0);
                return false;
            }
            i += 1;
        }
        true
    }

    /// The row for a star of the given mass and age: the row nearest in age
    /// on the track nearest in mass or, where that row is lighter than the
    /// star, on the first heavier track whose nearest row is not.
    pub fn get_params_for_current_mass_and_age(&self, mass: Mass, age_in_years: Fixed) -> (r:
        &ParsecLine)
        requires
            self.wf(),
            self.is_complete(),
        ensures
            *r == row_at(
                self@,
                settled_slot(
                    self@,
                    mass@,
                    age_in_years@,
                    closest_slot(trunc_div(mass@, KILOGRAMS_PER_NANO_SOLAR_MASS as int)),
                ),
                age_in_years@,
            ),
    {
        let mut mass_index: usize = closest_mass_index(mass.as_solar_masses());
        let ghost start = mass_index as int;
        assert(self@[mass_index as int].len() > 0);
        let mut params: &ParsecLine = Self::get_closest_params(&self.data[mass_index], age_in_years);
        while lighter_than(params.mass, mass) && mass_index < GRID_LEN - 1
            invariant
                self.wf(),
                self.is_complete(),
                0 <= start <= mass_index < GRID_LEN,
                *params == row_at(self@, mass_index as int, age_in_years@),
                settled_slot(self@, mass@, age_in_years@, start) == settled_slot(
                    self@,
                    mass@,
                    age_in_years@,
                    mass_index as int,
                ),
            decreases GRID_LEN - mass_index,
        {
            mass_index += 1;
            assert(self@[mass_index as int].len() > 0);
            params = Self::get_closest_params(&self.data[mass_index], age_in_years);
        }
        params
    }

    /// Reads one row of a file into the catalogue. `mass_position` is the
    /// slot that the file's rows belong to, as far as an earlier row has
    /// told it; the first row whose mass is a number tells it.
    pub fn read_line(
        line: &[u8],
        mass_position: &mut Option<usize>,
        parsec_data: &mut ParsecData,
    ) -> (r: Result<(), AstroUtilError>)
        requires
            old(parsec_data).wf(),
        ensures
            final(parsec_data).wf(),
            *final(mass_position) == slot_after(words(line@), *old(mass_position)),
            final(parsec_data)@ == tracks_after(
                old(parsec_data)@,
                words(line@),
                *old(mass_position),
            ),
            r == if is_broken_row(words(line@), *old(mass_position)) {
                Err::<(), AstroUtilError>(AstroUtilError::ParsecDataNotAvailable)
            } else {
                Ok::<(), AstroUtilError>(())
            },
    {
        let entries: Vec<Vec<u8>> = split_whitespace(line);
        let ghost w = words(line@);
        assert(w.len() == entries@.len());
        assert forall|k: int| 0 <= k < entries@.len() implies #[trigger] w[k] == entries@[k]@ by {
            assert(word_views(entries@)[k] == entries@[k]@);
        }
        if entries.len() <= MASS_INDEX {
            return Err(AstroUtilError::ParsecDataNotAvailable);
        }
        let mass: Option<Fixed> = parse_number(entries[MASS_INDEX].as_slice());
        if mass_position.is_none() {
            if let Some(mass_value) = mass {
                *mass_position = Some(closest_mass_index(mass_value));
            }
        }
        let slot: usize = match *mass_position {
            Some(slot) => slot,
            None => {
                return Ok(());
            },
        };
        if entries.len() <= LOG_R_INDEX {
            return Err(AstroUtilError::ParsecDataNotAvailable);
        }
        let age: Option<Fixed> = parse_number(entries[AGE_INDEX].as_slice());
        let log_l: Option<Fixed> = parse_number(entries[LOG_L_INDEX].as_slice());
        let log_te: Option<Fixed> = parse_number(entries[LOG_TE_INDEX].as_slice());
        let log_r: Option<Fixed> = parse_number(entries[LOG_R_INDEX].as_slice());
        if let (Some(mass), Some(age), Some(log_l), Some(log_te), Some(log_r)) = (
            mass,
            age,
            log_l,
            log_te,
            log_r,
        ) {
            if slot >= GRID_LEN {
                return Err(AstroUtilError::ParsecDataNotAvailable);
            }
            let parsec_line = ParsecLine { mass, age, log_l, log_te, log_r };
            assert(row_of(w) == Some(parsec_line));
            parsec_data.push_line(slot, parsec_line);
        }
        Ok(())
    }

    /// Reads the rows of one file into the catalogue, up to the first
    /// broken row.
    pub fn read_file(lines: &Vec<Vec<u8>>, parsec_data: &mut ParsecData) -> (r: Result<
        (),
        AstroUtilError,
    >)
        requires
            old(parsec_data).wf(),
        ensures
            final(parsec_data).wf(),
            final(parsec_data)@ == tracks_after_rows(
                old(parsec_data)@,
                word_views(lines@),
                0,
                None,
            ),
            r == if has_broken_row(word_views(lines@), 0, None) {
                Err::<(), AstroUtilError>(AstroUtilError::ParsecDataNotAvailable)
            } else {
                Ok::<(), AstroUtilError>(())
            },
    {
        let mut mass_position: Option<usize> = None;
        let mut i: usize = 0;
        let ghost rows = word_views(lines@);
        while i < lines.len()
            invariant
                i <= lines@.len(),
                rows == word_views(lines@),
                parsec_data.wf(),
                tracks_after_rows(old(parsec_data)@, rows, 0, None) == tracks_after_rows(
                    parsec_data@,
                    rows,
                    i as int,
                    mass_position,
                ),
                has_broken_row(rows, 0, None) == has_broken_row(rows, i as int, mass_position),
            decreases lines@.len() - i,
        {
            assert(rows[i as int] == lines@[i as int]@);
            match Self::read_line(lines[i].as_slice(), &mut mass_position, parsec_data) {
                Ok(()) => {},
                Err(e) => {
                    return Err(e);
                },
            }
            i += 1;
        }
        Ok(())
    }

    /// The catalogue that holds the rows of `files`, each file being the
    /// rows tabulated for one mass. Fails at the first broken row.
    pub fn from_files(files: &Vec<Vec<Vec<u8>>>) -> (r: Result<ParsecData, AstroUtilError>)
        ensures
            r.is_ok() == !has_broken_file(file_views(files@), 0),
            r.is_err() ==> r == Err::<ParsecData, AstroUtilError>(
                AstroUtilError::ParsecDataNotAvailable,
            ),
            r.is_ok() ==> r.unwrap().wf() && r.unwrap()@ == tracks_after_files(
                empty_tracks(),
                file_views(files@),
                0,
            ),
    {
        let mut parsec_data = ParsecData::new();
        assert(parsec_data@ =~~= empty_tracks());
        let ghost all = file_views(files@);
        let mut i: usize = 0;
        while i < files.len()
            invariant
                i <= files@.len(),
                all == file_views(files@),
                parsec_data.wf(),
                !has_broken_file(all, 0) == !has_broken_file(all, i as int),
                tracks_after_files(empty_tracks(), all, 0) == tracks_after_files(
                    parsec_data@,
                    all,
                    i as int,
                ),
            decreases files@.len() - i,
        {
            assert(all[i as int] == word_views(files@[i as int]@));
            match Self::read_file(&files[i], &mut parsec_data) {
                Ok(()) => {},
                Err(e) => {
                    return Err(e);
                },
            }
            i += 1;
        }
        Ok(parsec_data)
    }

    /// Appends `line` to the track of slot `i`.
    pub fn push_line(&mut self, i: usize, line: ParsecLine)
        requires
            old(self).wf(),
            i < GRID_LEN,
        ensures
            final(self).wf(),
            final(self)@ == old(self)@.update(i as int, old(self)@[i as int].push(line)),
    {
        self.data[i].push(line);
        assert(self@ =~= old(self)@.update(i as int, old(self)@[i as int].push(line)));
    }
}

} // verus!
