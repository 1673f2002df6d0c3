//! Pluggable exploration strategies for the epsilon-greedy controller.
//!
//! A strategy answers "which arm to choose" given whether this round
//! explores, the full per-arm history, and the currently best arm.  When the
//! round does not explore, every strategy returns the current best arm
//! unchanged: the variants differ only in how they explore.

use vstd::prelude::*;
use rand::rngs::SmallRng;
use vstd::arithmetic::div_mod::lemma_div_is_ordered_by_denominator;
use crate::{MAX_ARMS, MAX_OBS, WEIGHT_SCALE};
use crate::history::{hist_view, total_count, lemma_arm_len_le_total};
use crate::sampling::{
    fresh_rng, rng_below, seeded_rng, shuffle_indices, weight_sum_upto, weighted_pick,
};

verus! {

/// The exploration weight of an arm observed `count` times: the inverse of
/// the observation count plus one, scaled to an integer.
pub open spec fn inverse_count_weight(count: int) -> int {
    WEIGHT_SCALE as int / (count + 1)
}

/// Law: exploration weights order inversely to observation counts — an arm
/// observed no more often than another weighs at least as much.
pub proof fn lemma_inverse_count_weight_order(c1: int, c2: int)
    requires
        0 <= c1 <= c2,
    ensures
        inverse_count_weight(c1) >= inverse_count_weight(c2),
{
    lemma_div_is_ordered_by_denominator(WEIGHT_SCALE as int, c1 + 1, c2 + 1);
}

/// The inverse-count exploration weight of every arm.  All weights are
/// positive under the controllers' observation bound, so normalization is
/// left to the weighted sampler's division by their sum.
pub fn inverse_count_weights(choices: &Vec<Vec<i64>>) -> (w: Vec<u64>)
    requires
        choices@.len() <= MAX_ARMS,
        total_count(hist_view(choices@)) <= MAX_OBS,
    ensures
        w@.len() == choices@.len(),
        forall|i: int|
            0 <= i < w@.len() ==> (#[trigger] w@[i]) == inverse_count_weight(
                hist_view(choices@)[i].len() as int,
            ),
        forall|i: int| 0 <= i < w@.len() ==> 1 <= (#[trigger] w@[i]) <= WEIGHT_SCALE,
        weight_sum_upto(w@, w@.len() as int) <= (w@.len() as int) * (WEIGHT_SCALE as int),
{
    let n = choices.len();
    let mut weights: Vec<u64> = Vec::new();
    let mut i: usize = 0;
    while i < n
        invariant
            0 <= i <= n,
            n == choices@.len(),
            n <= MAX_ARMS,
            total_count(hist_view(choices@)) <= MAX_OBS,
            weights@.len() == i,
            forall|j: int|
                0 <= j < i ==> (#[trigger] weights@[j]) == inverse_count_weight(
                    hist_view(choices@)[j].len() as int,
                ),
            forall|j: int| 0 <= j < i ==> 1 <= (#[trigger] weights@[j]) <= WEIGHT_SCALE,
            weight_sum_upto(weights@, i as int) <= (i as int) * (WEIGHT_SCALE as int),
        decreases n - i,
    {
        proof {
            lemma_arm_len_le_total(hist_view(choices@), i as int);
        }
        let c = choices[i].len();
        let d: u64 = (c as u64) + 1;
        let w: u64 = WEIGHT_SCALE / d;
        assert(1 <= w <= WEIGHT_SCALE) by (nonlinear_arith)
            requires
                w == WEIGHT_SCALE as int / d as int,
                1 <= d <= WEIGHT_SCALE,
        ;
        let ghost pre = weights@;
        weights.push(w);
        proof {
            crate::sampling::lemma_weight_sum_push(pre, w);
        }
        i = i + 1;
    }
    weights
}

/// A policy choosing an arm index from the per-arm histories.
///
/// The bounds on the arm count and on the total observation count are the
/// machine limits under which the inverse-count weights below fit in `u64`;
/// both controllers maintain them as invariants.
pub trait ExplorationStrategy {
    /// Chooses an arm.  An exploiting round (`explore` false) returns
    /// `current_best` unchanged; an exploring round is free to return any
    /// valid arm index, by the variant's own rule.
    fn pick(&mut self, explore: bool, choices: &Vec<Vec<i64>>, current_best: usize) -> (r: usize)
        requires
            current_best < choices@.len(),
            choices@.len() <= MAX_ARMS,
            total_count(hist_view(choices@)) <= MAX_OBS,
        ensures
            r < choices@.len(),
            !explore ==> r == current_best,
    ;
}

/// Explores by drawing a uniform random arm, the current best included.
pub struct ExploreRandom {
    rng: SmallRng,
}

impl ExploreRandom {
    /// A strategy with a generator seeded from system entropy.
    pub fn new() -> Self {
        ExploreRandom { rng: fresh_rng() }
    }

    /// A strategy with a deterministic generator, for reproducible runs.
    pub fn seeded(seed: u64) -> Self {
        ExploreRandom { rng: seeded_rng(seed) }
    }
}

impl ExplorationStrategy for ExploreRandom {
    fn pick(&mut self, explore: bool, choices: &Vec<Vec<i64>>, current_best: usize) -> (r: usize) {
        if explore {
            rng_below(&mut self.rng, choices.len())
        } else {
            current_best
        }
    }
}

/// Explores by drawing a uniform random arm among all arms except the
/// current best.  With a single arm there is nothing to avoid and the
/// strategy degenerates to returning that arm.
pub struct ExploreNotBest {
    rng: SmallRng,
}

impl ExploreNotBest {
    /// A strategy with a generator seeded from system entropy.
    pub fn new() -> Self {
        ExploreNotBest { rng: fresh_rng() }
    }

    /// A strategy with a deterministic generator, for reproducible runs.
    pub fn seeded(seed: u64) -> Self {
        ExploreNotBest { rng: seeded_rng(seed) }
    }
}

impl ExplorationStrategy for ExploreNotBest {
    fn pick(&mut self, explore: bool, choices: &Vec<Vec<i64>>, current_best: usize) -> (r: usize)
        ensures
            explore && choices@.len() >= 2 ==> r != current_best,
    {
        if explore && choices.len() >= 2 {
            let n = choices.len();
            let mut others: Vec<usize> = Vec::new();
            let mut i: usize = 0;
            while i < n
                invariant
                    0 <= i <= n,
                    current_best < n,
                    others@.len() == i - (if current_best < i {
                        1int
                    } else {
                        0int
                    }),
                    forall|j: int|
                        0 <= j < others@.len() ==> (#[trigger] others@[j]) < n && others@[j]
                            != current_best,
                decreases n - i,
            {
                if i != current_best {
                    others.push(i);
                }
                i = i + 1;
            }
            let ghost pre = others@;
            shuffle_indices(&mut self.rng, &mut others);
            proof {
                broadcast use vstd::seq_lib::group_to_multiset_ensures;

                assert(others@.len() >= 1);
                let x = others@[0];
                assert(others@.contains(x));
                assert(others@.to_multiset().count(x) > 0);
                assert(pre.to_multiset().count(x) > 0);
                assert(pre.contains(x));
            }
            others[0]
        } else {
            current_best
        }
    }
}

/// Explores by drawing an arm with probability proportional to the inverse
/// of its observation count plus one, so arms observed less often are
/// favored.  The weights are integers `WEIGHT_SCALE / (count + 1)`, all
/// positive under the controller's observation bound, so the normalization
/// is the weight sum that the sampler divides by.
pub struct ExploreWeighted {
    rng: SmallRng,
}

impl ExploreWeighted {
    /// A strategy with a generator seeded from system entropy.
    pub fn new() -> Self {
        ExploreWeighted { rng: fresh_rng() }
    }

    /// A strategy with a deterministic generator, for reproducible runs.
    pub fn seeded(seed: u64) -> Self {
        ExploreWeighted { rng: seeded_rng(seed) }
    }
}

impl ExplorationStrategy for ExploreWeighted {
    fn pick(&mut self, explore: bool, choices: &Vec<Vec<i64>>, current_best: usize) -> (r: usize) {
        if explore {
            let weights = inverse_count_weights(choices);
            weighted_pick(&mut self.rng, &weights)
        } else {
            current_best
        }
    }
}

} // verus!
