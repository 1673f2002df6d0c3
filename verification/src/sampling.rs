//! Trusted access to the pseudo-random sources the controllers draw from.
//!
//! Every call into `rand` and `rand_distr` is made here, behind a small
//! wrapper whose contract states only what the crates' sources show of every
//! possible outcome.  Nothing is promised of which value comes back: the
//! verified callers state what holds whatever was drawn.

use vstd::prelude::*;
use rand::Rng;
use rand::SeedableRng;
use rand::rngs::SmallRng;
use rand::seq::SliceRandom;
use rand::distributions::Distribution;
use rand::distributions::WeightedIndex;

verus! {

/// `rand::rngs::SmallRng`, the non-cryptographic generator each controller
/// and strategy owns.  Opaque: nothing is known of its state.
#[verifier::external_type_specification]
#[verifier::external_body]
pub struct ExSmallRng(SmallRng);

/// Sum of the first `i` weights, used to bound weight totals.
pub open spec fn weight_sum_upto(s: Seq<u64>, i: int) -> int
    decreases i,
{
    if i <= 0 {
        0
    } else {
        weight_sum_upto(s, i - 1) + s[i - 1]
    }
}

/// Prefix weight sums agree on sequences that agree on the summed prefix.
pub proof fn lemma_weight_sum_congruence(s: Seq<u64>, t: Seq<u64>, i: int)
    requires
        i <= s.len(),
        i <= t.len(),
        forall|j: int| 0 <= j < i ==> s[j] == t[j],
    ensures
        weight_sum_upto(s, i) == weight_sum_upto(t, i),
    decreases i,
{
    if i > 0 {
        lemma_weight_sum_congruence(s, t, i - 1);
    }
}

/// Appending one weight raises the weight sum by exactly that weight.
pub proof fn lemma_weight_sum_push(s: Seq<u64>, w: u64)
    ensures
        weight_sum_upto(s.push(w), s.len() as int + 1) == weight_sum_upto(s, s.len() as int) + w,
{
    lemma_weight_sum_congruence(s.push(w), s, s.len() as int);
}

/// Relies on `rand::SeedableRng::from_entropy`: returns a generator seeded
/// from system entropy.
#[verifier::external_body]
pub(crate) fn fresh_rng() -> SmallRng {
    SmallRng::from_entropy()
}

/// Relies on `rand::SeedableRng::seed_from_u64`: returns a generator in the
/// state that seed determines, for reproducible runs.
#[verifier::external_body]
pub(crate) fn seeded_rng(seed: u64) -> SmallRng {
    SmallRng::seed_from_u64(seed)
}

/// Relies on `rand::Rng::gen_range`: a value drawn from a nonempty range
/// `0..n` lies below `n` (it panics on an empty range, which `n >= 1`
/// rules out).
#[verifier::external_body]
pub(crate) fn rng_below(rng: &mut SmallRng, n: usize) -> (r: usize)
    requires
        n >= 1,
    ensures
        r < n,
{
    rng.gen_range(0..n)
}

/// Relies on `rand::seq::SliceRandom::shuffle`: a Fisher-Yates pass that
/// permutes the slice in place, so the multiset of elements and the length
/// are unchanged.
#[verifier::external_body]
pub(crate) fn shuffle_indices(rng: &mut SmallRng, v: &mut Vec<usize>)
    ensures
        final(v)@.to_multiset() == old(v)@.to_multiset(),
        final(v)@.len() == old(v)@.len(),
{
    v.shuffle(rng)
}

/// Relies on `rand::distributions::WeightedIndex`: `new` accepts a nonempty
/// weight list whose sum is positive and fits the weight type, and `sample`
/// returns an index whose weight is nonzero (an item of weight zero has an
/// empty interval of the cumulative table and is never found).
#[verifier::external_body]
pub(crate) fn weighted_pick(rng: &mut SmallRng, weights: &Vec<u64>) -> (r: usize)
    requires
        weights@.len() >= 1,
        exists|i: int| 0 <= i < weights@.len() && weights@[i] > 0,
        weight_sum_upto(weights@, weights@.len() as int) <= u64::MAX,
    ensures
        r < weights@.len(),
        weights@[r as int] > 0,
{
    let dist = WeightedIndex::new(weights).unwrap();
    dist.sample(rng)
}

} // verus!
