//! Random draws, made by the `rand` crate.

use vstd::prelude::*;
use rand::Rng;
use rand::distributions::Distribution;
use rand::distributions::WeightedIndex;
use rand::rngs::ThreadRng;

verus! {

/// The `rand` crate's generator that each thread has for itself.
#[verifier::external_type_specification]
#[verifier::external_body]
pub struct ExThreadRng(rand::rngs::ThreadRng);

/// A distribution over the indices of a list of weights: the `rand`
/// crate's `WeightedIndex` with weights of type `u64`.
#[verifier::external_body]
pub struct IndexDistribution {
    inner: WeightedIndex<u64>,
}

/// The weights that a distribution over indices was made with.
pub uninterp spec fn weights_of(distribution: IndexDistribution) -> Seq<u64>;

/// The sum of the weights `w`.
pub open spec fn total_weight(w: Seq<u64>) -> int
    decreases w.len(),
{
    if w.len() == 0 {
        0
    } else {
        total_weight(w.drop_last()) + w.last()
    }
}

/// `rand::thread_rng`: the generator of the calling thread. Nothing is
/// claimed of it.
pub assume_specification[ rand::thread_rng ]() -> (r: ThreadRng)
;

/// `Rng::gen_range` on a half-open range of `u64`: a number from `low` up
/// to, but not including, `high`. The crate panics on an empty range, so
/// `low < high` is asked for.
#[verifier::external_body]
pub(crate) fn sample_between(rng: &mut ThreadRng, low: u64, high: u64) -> (r: u64)
    requires
        low < high,
    ensures
        low <= r < high,
{
    rng.gen_range(low..high)
}

/// `WeightedIndex::new` on weights of type `u64`: the distribution over
/// the indices of `weights`, which the crate refuses for an empty list and
/// for weights that are all zero. The crate adds the weights up in `u64`,
/// so a sum within `u64` is asked for.
#[verifier::external_body]
pub(crate) fn weighted_index(weights: &Vec<u64>) -> (r: Option<IndexDistribution>)
    requires
        total_weight(weights@) <= u64::MAX,
    ensures
        r.is_some() == (weights@.len() > 0 && total_weight(weights@) > 0),
        r.is_some() ==> weights_of(r.unwrap()) == weights@,
{
    match WeightedIndex::new(weights) {
        Ok(inner) => Some(IndexDistribution { inner }),
        Err(_) => None,
    }
}

/// `Distribution::sample` of a `WeightedIndex`: an index of the weights
/// that the distribution was made with, whose weight is not zero.
#[verifier::external_body]
pub(crate) fn sample_index(rng: &mut ThreadRng, distribution: &IndexDistribution) -> (r: usize)
    ensures
        r < weights_of(*distribution).len(),
        weights_of(*distribution)[r as int] > 0,
{
    distribution.inner.sample(rng)
}

} // verus!
