//! The fixed grid of representative stellar masses, and the search for the
//! grid mass nearest to a given mass.

use vstd::prelude::*;
use crate::fixed::Fixed;
use crate::fixed::abs;

verus! {

/// Number of representative masses.
pub const GRID_LEN: usize = 100;

/// The representative masses in billionths of a solar mass, ascending.
pub const SORTED_MASSES: [i128; 100] = [
    90_000_000, 100_000_000, 120_000_000, 140_000_000,
    160_000_000, 200_000_000, 250_000_000, 300_000_000,
    350_000_000, 400_000_000, 450_000_000, 500_000_000,
    550_000_000, 600_000_000, 650_000_000, 700_000_000,
    750_000_000, 800_000_000, 850_000_000, 900_000_000,
    950_000_000, 1_000_000_000, 1_050_000_000, 1_100_000_000,
    1_150_000_000, 1_200_000_000, 1_250_000_000, 1_300_000_000,
    1_350_000_000, 1_400_000_000, 1_450_000_000, 1_500_000_000,
    1_550_000_000, 1_600_000_000, 1_650_000_000, 1_700_000_000,
    1_750_000_000, 1_800_000_000, 1_850_000_000, 1_900_000_000,
    1_950_000_000, 2_000_000_000, 2_050_000_000, 2_100_000_000,
    2_150_000_000, 2_200_000_000, 2_250_000_000, 2_300_000_000,
    2_400_000_000, 2_600_000_000, 2_800_000_000, 3_000_000_000,
    3_200_000_000, 3_400_000_000, 3_600_000_000, 3_800_000_000,
    4_000_000_000, 4_200_000_000, 4_400_000_000, 4_600_000_000,
    4_800_000_000, 5_000_000_000, 5_200_000_000, 5_400_000_000,
    5_600_000_000, 5_800_000_000, 6_000_000_000, 6_200_000_000,
    6_400_000_000, 7_000_000_000, 8_000_000_000, 9_000_000_000,
    10_000_000_000, 12_000_000_000, 14_000_000_000, 16_000_000_000,
    18_000_000_000, 20_000_000_000, 24_000_000_000, 28_000_000_000,
    30_000_000_000, 35_000_000_000, 40_000_000_000, 45_000_000_000,
    50_000_000_000, 55_000_000_000, 60_000_000_000, 65_000_000_000,
    70_000_000_000, 75_000_000_000, 80_000_000_000, 90_000_000_000,
    95_000_000_000, 100_000_000_000, 120_000_000_000, 130_000_000_000,
    200_000_000_000, 250_000_000_000, 300_000_000_000, 350_000_000_000,
];

/// The grid mass of slot `i`, in billionths of a solar mass.
pub open spec fn grid_mass(i: int) -> int {
    SORTED_MASSES[i] as int
}

/// How far the mass `m` lies from the grid mass of slot `i`.
pub open spec fn grid_distance(m: int, i: int) -> int {
    abs(m - grid_mass(i))
}

/// `r` is the slot whose mass is nearest to `m`; of two slots equally near,
/// it is the higher one.
pub open spec fn is_closest_slot(m: int, r: int) -> bool {
    &&& 0 <= r < GRID_LEN as int
    &&& forall|j: int|
        0 <= j < r ==> grid_distance(m, r) <= #[trigger] grid_distance(m, j)
    &&& forall|j: int|
        r < j < GRID_LEN as int ==> grid_distance(m, r) < #[trigger] grid_distance(m, j)
}

/// The slot whose mass is nearest to `m`.
pub open spec fn closest_slot(m: int) -> int {
    choose|r: int| is_closest_slot(m, r)
}

/// `m` reaches neither past the midpoint towards the slot below `i` nor up to
/// the midpoint towards the slot above it.
pub open spec fn within_midpoints(m: int, i: int) -> bool {
    &&& 0 <= i < GRID_LEN as int
    &&& i > 0 ==> grid_mass(i - 1) + grid_mass(i) <= 2 * m
    &&& i < GRID_LEN as int - 1 ==> 2 * m < grid_mass(i) + grid_mass(i + 1)
}

/// Neighbouring grid masses ascend.
proof fn lemma_grid_steps(i: int)
    requires
        0 <= i < GRID_LEN as int - 1,
    ensures
        grid_mass(i) < grid_mass(i + 1),
        grid_mass(i) > 0,
{
    if i < 25 {
        if i < 12 {
        } else {
        }
    } else if i < 50 {
        if i < 37 {
        } else {
        }
    } else if i < 75 {
        if i < 62 {
        } else {
        }
    } else {
        if i < 87 {
        } else {
        }
    }
}

/// The grid is strictly increasing.
pub proof fn lemma_grid_increasing(i: int, j: int)
    requires
        0 <= i < j < GRID_LEN as int,
    ensures
        grid_mass(i) < grid_mass(j),
    decreases j - i,
{
    lemma_grid_steps(j - 1);
    if i < j - 1 {
        lemma_grid_increasing(i, j - 1);
    }
}

/// At most one slot is the closest to a given mass.
pub proof fn lemma_closest_slot_unique(m: int, a: int, b: int)
    requires
        is_closest_slot(m, a),
        is_closest_slot(m, b),
    ensures
        a == b,
{
    if a < b {
        assert(grid_distance(m, a) < grid_distance(m, b));
        assert(grid_distance(m, b) <= grid_distance(m, a));
    } else if b < a {
        assert(grid_distance(m, b) < grid_distance(m, a));
        assert(grid_distance(m, a) <= grid_distance(m, b));
    }
}

/// Every grid mass is closest to its own slot, and so is every mass around
/// it that stays within the midpoints towards the neighbouring slots.
pub proof fn lemma_grid_mass_maps_to_itself(m: int, i: int)
    requires
        within_midpoints(m, i),
    ensures
        is_closest_slot(m, i),
        closest_slot(m) == i,
{
    lemma_within_midpoints_is_closest(m, i);
    lemma_closest_slot_unique(m, i, closest_slot(m));
}

/// A mass within the midpoints around slot `i` is nearest to slot `i`.
proof fn lemma_within_midpoints_is_closest(m: int, i: int)
    requires
        within_midpoints(m, i),
    ensures
        is_closest_slot(m, i),
{
    assert forall|j: int| 0 <= j < i implies grid_distance(m, i) <= #[trigger] grid_distance(
        m,
        j,
    ) by {
        lemma_grid_steps(i - 1);
        if j < i - 1 {
            lemma_grid_increasing(j, i - 1);
        }
    }
    assert forall|j: int| i < j < GRID_LEN as int implies grid_distance(m, i)
        < #[trigger] grid_distance(m, j) by {
        lemma_grid_steps(i);
        if i + 1 < j {
            lemma_grid_increasing(i + 1, j);
        }
    }
}

/// A grid mass itself lies within the midpoints around its slot.
pub proof fn lemma_grid_mass_within_midpoints(i: int)
    requires
        0 <= i < GRID_LEN as int,
    ensures
        within_midpoints(grid_mass(i), i),
        is_closest_slot(grid_mass(i), i),
        closest_slot(grid_mass(i)) == i,
{
    if i > 0 {
        lemma_grid_steps(i - 1);
    }
    if i < GRID_LEN as int - 1 {
        lemma_grid_steps(i);
    }
    lemma_grid_mass_maps_to_itself(grid_mass(i), i);
}

/// The slot whose grid mass is nearest to `mass`, found by bisection.
pub fn closest_mass_index(mass: Fixed) -> (r: usize)
    ensures
        is_closest_slot(mass@, r as int),
        r == closest_slot(mass@),
        r < GRID_LEN,
{
    let m: i128 = mass.nanos;
    let mut min_index: usize = 0;
    let mut max_index: usize = GRID_LEN - 1;
    while max_index - min_index > 1
        invariant
            min_index < max_index <= GRID_LEN - 1,
            min_index == 0 || grid_mass(min_index as int) < m,
            max_index == GRID_LEN - 1 || m <= grid_mass(max_index as int),
        decreases max_index - min_index,
    {
        let mid_index: usize = (max_index + min_index) / 2;
        let mid_mass: i128 = SORTED_MASSES[mid_index];
        if m > mid_mass {
            min_index = mid_index;
        } else {
            max_index = mid_index;
        }
    }
    let low: i128 = SORTED_MASSES[min_index];
    let high: i128 = SORTED_MASSES[max_index];
    proof {
        lemma_grid_steps(min_index as int);
    }
    let take_low: bool = if m <= low {
        true
    } else if m >= high {
        false
    } else {
        m - low < high - m
    };
    let r: usize = if take_low {
        min_index
    } else {
        max_index
    };
    proof {
        let lo = min_index as int;
        let hi = max_index as int;
        assert forall|j: int| 0 <= j < r as int implies grid_distance(m as int, r as int)
            <= #[trigger] grid_distance(m as int, j) by {
            if j < lo {
                lemma_grid_increasing(j, lo);
            }
        }
        assert forall|j: int| (r as int) < j < GRID_LEN as int implies grid_distance(
            m as int,
            r as int,
        ) < #[trigger] grid_distance(m as int, j) by {
            if hi < j {
                lemma_grid_increasing(hi, j);
            }
        }
        assert(is_closest_slot(m as int, r as int));
        lemma_closest_slot_unique(m as int, r as int, closest_slot(m as int));
    }
    r
}

} // verus!
