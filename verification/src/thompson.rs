//! The Thompson-sampling controller.
//!
//! Per arm it keeps a pair of Beta pseudo-counts (successes, failures),
//! incremented by the sign of each observed reward, beside the raw reward
//! history used only for the running metric.  A round draws one sample from
//! each arm's Laplace-smoothed posterior `Beta(successes + 1, failures + 1)`
//! and picks the lowest arm index with the maximal sample.
//!
//! Drawing from a Beta distribution is floating-point work and stays outside
//! this crate.  A caller reads the smoothed shape pairs from
//! [`ThompsonSample::posterior_shapes`], draws one sample per arm with the
//! generator of its choice, and hands the samples to
//! [`ThompsonSample::pick`] as their IEEE-754 bit patterns, which for the
//! nonnegative Beta samples are monotone in the value, so comparing codes
//! compares samples.

use vstd::prelude::*;
use crate::{MAX_ARMS, MAX_OBS, REWARD_LIMIT};
use crate::history::{
    bounded_rewards, first_max_index, hist_view, lemma_arm_total_push,
    lemma_count_upto_congruence, lemma_count_upto_nonneg, lemma_count_upto_update,
    lemma_total_sum_upto_update, running_total, total_count, total_sum, wf_history,
};

verus! {

/// A bandit controller with Beta-Bernoulli beliefs per arm.
pub struct ThompsonSample {
    experience: Vec<(u32, u32)>,
    rewards: Vec<Vec<i64>>,
}

impl ThompsonSample {
    /// The per-arm sequences of observed raw rewards, in milli-units.
    pub closed spec fn histories(self) -> Seq<Seq<i64>> {
        hist_view(self.rewards@)
    }

    /// The per-arm (successes, failures) pseudo-count pairs.
    pub closed spec fn beliefs(self) -> Seq<(u32, u32)> {
        self.experience@
    }

    /// The controller's invariant: one belief pair per arm, a well-formed
    /// history, and pseudo-counts no larger than the observation count, so
    /// the smoothed shapes stay within `u32`.
    pub open spec fn wf(self) -> bool {
        &&& 1 <= self.histories().len() <= MAX_ARMS
        &&& self.beliefs().len() == self.histories().len()
        &&& wf_history(self.histories())
        &&& forall|i: int|
            0 <= i < self.beliefs().len() ==> (#[trigger] self.beliefs()[i]).0
                + self.beliefs()[i].1 <= total_count(self.histories())
    }

    /// A controller over `n` arms with no evidence: all pseudo-counts zero
    /// and empty reward histories.
    pub fn new(n: usize) -> (c: Self)
        requires
            1 <= n <= MAX_ARMS,
        ensures
            c.wf(),
            c.histories().len() == n,
            forall|i: int| 0 <= i < n ==> (#[trigger] c.histories()[i]).len() == 0,
            forall|i: int| 0 <= i < n ==> (#[trigger] c.beliefs()[i]) == (0u32, 0u32),
            total_count(c.histories()) == 0,
    {
        let mut experience: Vec<(u32, u32)> = Vec::new();
        let mut rewards: Vec<Vec<i64>> = Vec::new();
        let mut i: usize = 0;
        while i < n
            invariant
                0 <= i <= n,
                experience@.len() == i,
                rewards@.len() == i,
                forall|j: int| 0 <= j < i ==> (#[trigger] hist_view(rewards@)[j]).len() == 0,
                forall|j: int| 0 <= j < i ==> (#[trigger] experience@[j]) == (0u32, 0u32),
                total_count(hist_view(rewards@)) == 0,
            decreases n - i,
        {
            let ghost pre = hist_view(rewards@);
            experience.push((0, 0));
            rewards.push(Vec::new());
            proof {
                lemma_count_upto_congruence(hist_view(rewards@), pre, i as int);
                assert forall|j: int| 0 <= j < i + 1 implies (#[trigger] hist_view(
                    rewards@,
                )[j]).len() == 0 by {
                    if j < i {
                        assert(hist_view(rewards@)[j] == pre[j]);
                    }
                }
            }
            i = i + 1;
        }
        ThompsonSample { experience, rewards }
    }

    /// The number of arms, fixed for the controller's lifetime.
    pub fn arms(&self) -> (n: usize)
        requires
            self.wf(),
        ensures
            n == self.histories().len(),
            n == self.beliefs().len(),
    {
        self.rewards.len()
    }

    /// One arm's (successes, failures) pseudo-counts.
    pub fn belief_of(&self, arm: usize) -> (p: (u32, u32))
        requires
            arm < self.beliefs().len(),
        ensures
            p == self.beliefs()[arm as int],
    {
        self.experience[arm]
    }

    /// The Laplace-smoothed posterior shape pair of every arm: successes
    /// plus one and failures plus one, both strictly positive, so the Beta
    /// posterior they parameterize is always well defined.
    pub fn posterior_shapes(&self) -> (r: Vec<(u32, u32)>)
        requires
            self.wf(),
        ensures
            r@.len() == self.beliefs().len(),
            forall|i: int|
                0 <= i < r@.len() ==> (#[trigger] r@[i]).0 == self.beliefs()[i].0 + 1 && r@[i].1
                    == self.beliefs()[i].1 + 1,
            forall|i: int| 0 <= i < r@.len() ==> (#[trigger] r@[i]).0 >= 1 && r@[i].1 >= 1,
    {
        let mut r: Vec<(u32, u32)> = Vec::new();
        let mut i: usize = 0;
        let n = self.experience.len();
        while i < n
            invariant
                0 <= i <= n,
                n == self.beliefs().len(),
                self.wf(),
                r@.len() == i,
                forall|j: int|
                    0 <= j < i ==> (#[trigger] r@[j]).0 == self.beliefs()[j].0 + 1 && r@[j].1
                        == self.beliefs()[j].1 + 1,
            decreases n - i,
        {
            let p = self.experience[i];
            r.push((p.0 + 1, p.1 + 1));
            i = i + 1;
        }
        r
    }

    /// The running metric: total observed raw reward and observation count,
    /// the mean as an exact fraction.  `None` before the first observation,
    /// when the mean is undefined.  Belief resets do not touch it.
    pub fn reward(&self) -> (r: Option<(i64, u64)>)
        requires
            self.wf(),
        ensures
            match r {
                Some(p) => total_count(self.histories()) > 0 && p.0 == total_sum(self.histories())
                    && p.1 == total_count(self.histories()),
                None => total_count(self.histories()) == 0,
            },
    {
        running_total(&self.rewards)
    }

    /// One round's choice, from one posterior sample per arm, given as
    /// IEEE-754 bit patterns: the lowest arm index whose sample is maximal.
    pub fn pick(&self, sample_codes: &Vec<u32>) -> (r: usize)
        requires
            self.wf(),
            sample_codes@.len() == self.histories().len(),
        ensures
            r < self.histories().len(),
            forall|i: int|
                0 <= i < sample_codes@.len() ==> sample_codes@[i] <= sample_codes@[r as int],
            forall|i: int| 0 <= i < r ==> sample_codes@[i] < sample_codes@[r as int],
    {
        first_max_index(sample_codes)
    }

    /// Records one observation: a positive reward increments the arm's
    /// success pseudo-count, a non-positive one its failure pseudo-count,
    /// and the raw reward is appended to the arm's history either way.
    pub fn update(&mut self, bandit: usize, reward_milli: i64)
        requires
            old(self).wf(),
            bandit < old(self).histories().len(),
            total_count(old(self).histories()) < MAX_OBS,
            -REWARD_LIMIT <= reward_milli <= REWARD_LIMIT,
        ensures
            final(self).wf(),
            final(self).histories() == old(self).histories().update(
                bandit as int,
                old(self).histories()[bandit as int].push(reward_milli),
            ),
            final(self).beliefs() == old(self).beliefs().update(
                bandit as int,
                if reward_milli > 0 {
                    ((old(self).beliefs()[bandit as int].0 + 1) as u32,
                    old(self).beliefs()[bandit as int].1)
                } else {
                    (old(self).beliefs()[bandit as int].0,
                    (old(self).beliefs()[bandit as int].1 + 1) as u32)
                },
            ),
            total_count(final(self).histories()) == total_count(old(self).histories()) + 1,
            total_sum(final(self).histories()) == total_sum(old(self).histories()) + reward_milli,
    {
        let ghost h = self.histories();
        let p = self.experience[bandit];
        let q = if reward_milli > 0 {
            (p.0 + 1, p.1)
        } else {
            (p.0, p.1 + 1)
        };
        let slot = &mut self.experience[bandit];
        *slot = q;
        self.rewards[bandit].push(reward_milli);
        proof {
            let b = bandit as int;
            let v = h[b].push(reward_milli);
            assert(final(self).histories() =~= h.update(b, v));
            lemma_count_upto_update(h, b, v, h.len() as int);
            lemma_total_sum_upto_update(h, b, v, h.len() as int);
            lemma_arm_total_push(h[b], reward_milli);
            assert(bounded_rewards(h.update(b, v)));
        }
    }

    /// Forgets all evidence: every (successes, failures) pair is reset to
    /// zero, while the raw reward histories — and with them the running
    /// metric — are left untouched.
    pub fn reset_beliefs(&mut self)
        requires
            old(self).wf(),
        ensures
            final(self).wf(),
            final(self).histories() == old(self).histories(),
            final(self).beliefs().len() == old(self).beliefs().len(),
            forall|i: int|
                0 <= i < final(self).beliefs().len() ==> (#[trigger] final(self).beliefs()[i]) == (
                0u32,
                0u32,
                ),
            total_count(final(self).histories()) == total_count(old(self).histories()),
            total_sum(final(self).histories()) == total_sum(old(self).histories()),
    {
        let n = self.experience.len();
        let mut cleared: Vec<(u32, u32)> = Vec::new();
        let mut i: usize = 0;
        while i < n
            invariant
                0 <= i <= n,
                cleared@.len() == i,
                forall|j: int| 0 <= j < i ==> (#[trigger] cleared@[j]) == (0u32, 0u32),
            decreases n - i,
        {
            cleared.push((0, 0));
            i = i + 1;
        }
        self.experience = cleared;
        proof {
            lemma_count_upto_nonneg(self.histories(), self.histories().len() as int);
        }
    }
}

} // verus!
