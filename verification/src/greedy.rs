//! The epsilon-greedy controller.
//!
//! Each round the controller computes the current best arm (the lowest index
//! maximizing the summed observed reward), draws whether to explore with the
//! caller-supplied probability, and delegates the choice to its exploration
//! strategy.  The exploration probability is a caller-controlled knob, in
//! parts per million, so one controller serves fixed and decaying schedules
//! alike.

use vstd::prelude::*;
use rand::rngs::SmallRng;
use crate::{EPSILON_SCALE, MAX_ARMS, MAX_OBS, REWARD_LIMIT};
use crate::history::{
    best_arm_of, bounded_rewards, hist_view, is_first_max_arm, lemma_arm_total_push,
    lemma_count_upto_congruence, lemma_count_upto_update, lemma_total_sum_upto_update,
    running_total, total_count, total_sum, wf_history,
};
use crate::sampling::{fresh_rng, rng_below, seeded_rng};
use crate::strategy::ExplorationStrategy;

verus! {

/// A bandit controller that exploits the best arm so far, except on explore
/// rounds, which it delegates to its strategy.
pub struct EpsilonGreedy<T: ExplorationStrategy> {
    rng: SmallRng,
    expected_rewards: Vec<Vec<i64>>,
    strategy: T,
}

impl<T: ExplorationStrategy> EpsilonGreedy<T> {
    /// The per-arm sequences of observed rewards, in milli-units.
    pub closed spec fn histories(self) -> Seq<Seq<i64>> {
        hist_view(self.expected_rewards@)
    }

    /// The controller's invariant: a fixed arm count within the machine
    /// bounds, and a well-formed history.
    pub open spec fn wf(self) -> bool {
        &&& 1 <= self.histories().len() <= MAX_ARMS
        &&& wf_history(self.histories())
    }

    /// A controller over `n` arms with empty histories, exploring through
    /// `strategy`.
    pub fn new(n: usize, strategy: T) -> (c: Self)
        requires
            1 <= n <= MAX_ARMS,
        ensures
            c.wf(),
            c.histories().len() == n,
            forall|i: int| 0 <= i < n ==> (#[trigger] c.histories()[i]).len() == 0,
            total_count(c.histories()) == 0,
    {
        let mut v: Vec<Vec<i64>> = Vec::new();
        let mut i: usize = 0;
        while i < n
            invariant
                0 <= i <= n,
                v@.len() == i,
                forall|j: int| 0 <= j < i ==> (#[trigger] hist_view(v@)[j]).len() == 0,
                total_count(hist_view(v@)) == 0,
            decreases n - i,
        {
            let ghost pre = hist_view(v@);
            v.push(Vec::new());
            proof {
                lemma_count_upto_congruence(hist_view(v@), pre, i as int);
                assert forall|j: int| 0 <= j < i + 1 implies (#[trigger] hist_view(v@)[j]).len()
                    == 0 by {
                    if j < i {
                        assert(hist_view(v@)[j] == pre[j]);
                    }
                }
            }
            i = i + 1;
        }
        EpsilonGreedy { rng: fresh_rng(), expected_rewards: v, strategy }
    }

    /// The number of arms, fixed for the controller's lifetime.
    pub fn arms(&self) -> (n: usize)
        ensures
            n == self.histories().len(),
    {
        self.expected_rewards.len()
    }

    /// Number of rewards recorded so far for one arm.
    pub fn observations_of(&self, arm: usize) -> (c: usize)
        requires
            arm < self.histories().len(),
        ensures
            c == self.histories()[arm as int].len(),
    {
        self.expected_rewards[arm].len()
    }

    /// The running metric: total observed reward and observation count, the
    /// mean as an exact fraction.  `None` before the first observation, when
    /// the mean is undefined.
    pub fn reward(&self) -> (r: Option<(i64, u64)>)
        requires
            self.wf(),
        ensures
            match r {
                Some(p) => total_count(self.histories()) > 0 && p.0 == total_sum(self.histories())
                    && p.1 == total_count(self.histories()),
                None => total_count(self.histories()) == 0,
            },
    {
        running_total(&self.expected_rewards)
    }

    /// One round's choice.  With probability `epsilon_ppm / EPSILON_SCALE`
    /// the round explores and the strategy chooses; otherwise the lowest arm
    /// index with maximal summed reward is returned.  With `epsilon_ppm`
    /// zero the choice is pure exploitation, a function of the recorded
    /// history alone.  The histories are never changed by a pick.
    pub fn pick(&mut self, epsilon_ppm: usize) -> (r: usize)
        requires
            old(self).wf(),
            epsilon_ppm <= EPSILON_SCALE,
        ensures
            final(self).wf(),
            final(self).histories() == old(self).histories(),
            r < old(self).histories().len(),
            epsilon_ppm == 0 ==> is_first_max_arm(old(self).histories(), r as int),
    {
        let current_best = best_arm_of(&self.expected_rewards);
        let draw = rng_below(&mut self.rng, EPSILON_SCALE);
        let explore = draw < epsilon_ppm;
        self.strategy.pick(explore, &self.expected_rewards, current_best)
    }

    /// Records one observed reward for one arm; the only state change is
    /// the appended observation.
    pub fn update(&mut self, bandit: usize, reward_milli: i64)
        requires
            old(self).wf(),
            bandit < old(self).histories().len(),
            total_count(old(self).histories()) < MAX_OBS,
            -REWARD_LIMIT <= reward_milli <= REWARD_LIMIT,
        ensures
            final(self).wf(),
            final(self).histories() == old(self).histories().update(
                bandit as int,
                old(self).histories()[bandit as int].push(reward_milli),
            ),
            total_count(final(self).histories()) == total_count(old(self).histories()) + 1,
            total_sum(final(self).histories()) == total_sum(old(self).histories()) + reward_milli,
    {
        let ghost h = self.histories();
        self.expected_rewards[bandit].push(reward_milli);
        proof {
            let b = bandit as int;
            let v = h[b].push(reward_milli);
            assert(final(self).histories() =~= h.update(b, v));
            lemma_count_upto_update(h, b, v, h.len() as int);
            lemma_total_sum_upto_update(h, b, v, h.len() as int);
            lemma_arm_total_push(h[b], reward_milli);
            assert(bounded_rewards(h.update(b, v)));
        }
    }
}

} // verus!
