//! Per-arm reward histories and the statistics computed from them.
//!
//! A history is a sequence of per-arm reward sequences, append-only.  Both
//! controllers derive their decisions from arm sums and their running metric
//! from the total sum and total count, so those statistics are defined here
//! once, together with the executable functions that compute them.

use vstd::prelude::*;
use crate::{MAX_OBS, REWARD_LIMIT};

verus! {

/// Sum of the first `i` rewards of one arm's history.
pub open spec fn sum_upto(s: Seq<i64>, i: int) -> int
    decreases i,
{
    if i <= 0 {
        0
    } else {
        sum_upto(s, i - 1) + s[i - 1]
    }
}

/// Sum of all rewards of one arm's history.
pub open spec fn arm_total(s: Seq<i64>) -> int {
    sum_upto(s, s.len() as int)
}

/// Number of observations in the first `i` arms of a history.
pub open spec fn count_upto(h: Seq<Seq<i64>>, i: int) -> int
    decreases i,
{
    if i <= 0 {
        0
    } else {
        count_upto(h, i - 1) + h[i - 1].len()
    }
}

/// Number of observations across all arms.
pub open spec fn total_count(h: Seq<Seq<i64>>) -> int {
    count_upto(h, h.len() as int)
}

/// Sum of the rewards in the first `i` arms of a history.
pub open spec fn total_sum_upto(h: Seq<Seq<i64>>, i: int) -> int
    decreases i,
{
    if i <= 0 {
        0
    } else {
        total_sum_upto(h, i - 1) + arm_total(h[i - 1])
    }
}

/// Sum of all rewards across all arms.
pub open spec fn total_sum(h: Seq<Seq<i64>>) -> int {
    total_sum_upto(h, h.len() as int)
}

/// Every recorded reward has magnitude at most [`REWARD_LIMIT`].
pub open spec fn bounded_rewards(h: Seq<Seq<i64>>) -> bool {
    forall|i: int, j: int|
        0 <= i < h.len() && 0 <= j < h[i].len() ==> -REWARD_LIMIT <= #[trigger] h[i][j]
            <= REWARD_LIMIT
}

/// The standing invariant of every controller's history: the total number of
/// observations and every reward magnitude stay within the machine bounds
/// under which all sums fit in `i64`.
pub open spec fn wf_history(h: Seq<Seq<i64>>) -> bool {
    &&& total_count(h) <= MAX_OBS
    &&& bounded_rewards(h)
}

/// `b` is the lowest arm index whose reward sum is maximal.
pub open spec fn is_first_max_arm(h: Seq<Seq<i64>>, b: int) -> bool {
    &&& 0 <= b < h.len()
    &&& forall|i: int| 0 <= i < h.len() ==> arm_total(#[trigger] h[i]) <= arm_total(h[b])
    &&& forall|i: int| 0 <= i < b ==> arm_total(#[trigger] h[i]) < arm_total(h[b])
}

/// The view of an exec history: the sequence of per-arm reward sequences.
pub open spec fn hist_view(h: Seq<Vec<i64>>) -> Seq<Seq<i64>> {
    Seq::new(h.len(), |i: int| h[i]@)
}

/// A partial sum of bounded rewards is itself bounded.
pub proof fn lemma_sum_upto_bound(s: Seq<i64>, i: int)
    requires
        0 <= i <= s.len(),
        forall|j: int| 0 <= j < s.len() ==> -REWARD_LIMIT <= #[trigger] s[j] <= REWARD_LIMIT,
    ensures
        -(REWARD_LIMIT as int) * i <= sum_upto(s, i) <= (REWARD_LIMIT as int) * i,
    decreases i,
{
    if i > 0 {
        lemma_sum_upto_bound(s, i - 1);
    }
}

/// Partial sums agree on sequences that agree on the summed prefix.
pub proof fn lemma_sum_upto_congruence(s: Seq<i64>, t: Seq<i64>, i: int)
    requires
        i <= s.len(),
        i <= t.len(),
        forall|j: int| 0 <= j < i ==> s[j] == t[j],
    ensures
        sum_upto(s, i) == sum_upto(t, i),
    decreases i,
{
    if i > 0 {
        lemma_sum_upto_congruence(s, t, i - 1);
    }
}

/// Appending one reward raises the arm's sum by exactly that reward.
pub proof fn lemma_arm_total_push(s: Seq<i64>, r: i64)
    ensures
        arm_total(s.push(r)) == arm_total(s) + r,
{
    lemma_sum_upto_congruence(s.push(r), s, s.len() as int);
}

/// Prefix observation counts never decrease.
pub proof fn lemma_count_upto_mono(h: Seq<Seq<i64>>, i: int, j: int)
    requires
        0 <= i <= j <= h.len(),
    ensures
        count_upto(h, i) <= count_upto(h, j),
    decreases j,
{
    if i < j {
        lemma_count_upto_mono(h, i, j - 1);
    }
}

/// Prefix observation counts are nonnegative.
pub proof fn lemma_count_upto_nonneg(h: Seq<Seq<i64>>, i: int)
    ensures
        count_upto(h, i) >= 0,
    decreases i,
{
    if i > 0 {
        lemma_count_upto_nonneg(h, i - 1);
    }
}

/// One arm's observation count is at most the total count.
pub proof fn lemma_arm_len_le_total(h: Seq<Seq<i64>>, k: int)
    requires
        0 <= k < h.len(),
    ensures
        h[k].len() <= total_count(h),
{
    lemma_count_upto_nonneg(h, k);
    lemma_count_upto_mono(h, k + 1, h.len() as int);
}

/// The total sum of bounded rewards is bounded by the total count.
pub proof fn lemma_total_sum_upto_bound(h: Seq<Seq<i64>>, i: int)
    requires
        0 <= i <= h.len(),
        bounded_rewards(h),
    ensures
        -(REWARD_LIMIT as int) * count_upto(h, i) <= total_sum_upto(h, i) <= (REWARD_LIMIT as int)
            * count_upto(h, i),
    decreases i,
{
    if i > 0 {
        lemma_total_sum_upto_bound(h, i - 1);
        lemma_sum_upto_bound(h[i - 1], h[i - 1].len() as int);
    }
}

/// Prefix observation counts agree on histories that agree on the prefix.
pub proof fn lemma_count_upto_congruence(h: Seq<Seq<i64>>, g: Seq<Seq<i64>>, i: int)
    requires
        i <= h.len(),
        i <= g.len(),
        forall|j: int| 0 <= j < i ==> h[j] == g[j],
    ensures
        count_upto(h, i) == count_upto(g, i),
    decreases i,
{
    if i > 0 {
        lemma_count_upto_congruence(h, g, i - 1);
    }
}

/// Law: the exploitation target is unique — two lowest-maximal arm indices
/// of one history are equal, so pure exploitation is deterministic.
pub proof fn lemma_first_max_arm_unique(h: Seq<Seq<i64>>, a: int, b: int)
    requires
        is_first_max_arm(h, a),
        is_first_max_arm(h, b),
    ensures
        a == b,
{
    if a < b {
        assert(arm_total(h[a]) < arm_total(h[b]));
        assert(arm_total(h[b]) <= arm_total(h[a]));
    }
    if b < a {
        assert(arm_total(h[b]) < arm_total(h[a]));
        assert(arm_total(h[a]) <= arm_total(h[b]));
    }
}

/// How updating one arm changes a prefix observation count.
pub proof fn lemma_count_upto_update(h: Seq<Seq<i64>>, b: int, v: Seq<i64>, i: int)
    requires
        0 <= b < h.len(),
        0 <= i <= h.len(),
    ensures
        count_upto(h.update(b, v), i) == count_upto(h, i) + if b < i {
            v.len() - h[b].len()
        } else {
            0
        },
    decreases i,
{
    if i > 0 {
        lemma_count_upto_update(h, b, v, i - 1);
    }
}

/// How updating one arm changes a prefix reward sum.
pub proof fn lemma_total_sum_upto_update(h: Seq<Seq<i64>>, b: int, v: Seq<i64>, i: int)
    requires
        0 <= b < h.len(),
        0 <= i <= h.len(),
    ensures
        total_sum_upto(h.update(b, v), i) == total_sum_upto(h, i) + if b < i {
            arm_total(v) - arm_total(h[b])
        } else {
            0
        },
    decreases i,
{
    if i > 0 {
        lemma_total_sum_upto_update(h, b, v, i - 1);
    }
}

/// Sum of one arm's recorded rewards.
pub fn sum_vec(v: &Vec<i64>) -> (t: i64)
    requires
        v@.len() <= MAX_OBS,
        forall|j: int| 0 <= j < v@.len() ==> -REWARD_LIMIT <= #[trigger] v@[j] <= REWARD_LIMIT,
    ensures
        t == arm_total(v@),
{
    let mut acc: i64 = 0;
    let mut i: usize = 0;
    while i < v.len()
        invariant
            0 <= i <= v@.len(),
            v@.len() <= MAX_OBS,
            forall|j: int| 0 <= j < v@.len() ==> -REWARD_LIMIT <= #[trigger] v@[j] <= REWARD_LIMIT,
            acc == sum_upto(v@, i as int),
        decreases v@.len() - i,
    {
        proof {
            lemma_sum_upto_bound(v@, i as int);
        }
        acc = acc + v[i];
        i = i + 1;
    }
    acc
}

/// The running metric of a history: the total reward and the observation
/// count across all arms, the mean as an exact fraction.  `None` when no
/// observation exists yet: the metric is undefined then, and no sentinel
/// value is invented for it.
pub fn running_total(rewards: &Vec<Vec<i64>>) -> (r: Option<(i64, u64)>)
    requires
        wf_history(hist_view(rewards@)),
    ensures
        match r {
            Some(p) => total_count(hist_view(rewards@)) > 0 && p.0 == total_sum(
                hist_view(rewards@),
            ) && p.1 == total_count(hist_view(rewards@)),
            None => total_count(hist_view(rewards@)) == 0,
        },
{
    let ghost h = hist_view(rewards@);
    let mut cnt: u64 = 0;
    let mut tot: i64 = 0;
    let mut i: usize = 0;
    while i < rewards.len()
        invariant
            0 <= i <= rewards@.len(),
            h == hist_view(rewards@),
            wf_history(h),
            cnt == count_upto(h, i as int),
            tot == total_sum_upto(h, i as int),
        decreases rewards@.len() - i,
    {
        proof {
            lemma_arm_len_le_total(h, i as int);
            lemma_count_upto_mono(h, i as int + 1, h.len() as int);
            lemma_count_upto_nonneg(h, i as int);
            lemma_total_sum_upto_bound(h, i as int + 1);
            lemma_total_sum_upto_bound(h, i as int);
            lemma_sum_upto_bound(h[i as int], h[i as int].len() as int);
        }
        let s = sum_vec(&rewards[i]);
        cnt = cnt + (rewards[i].len() as u64);
        tot = tot + s;
        i = i + 1;
    }
    if cnt == 0 {
        None
    } else {
        Some((tot, cnt))
    }
}

/// The lowest arm index whose reward sum is maximal: the exploitation target.
pub fn best_arm_of(rewards: &Vec<Vec<i64>>) -> (b: usize)
    requires
        rewards@.len() >= 1,
        wf_history(hist_view(rewards@)),
    ensures
        is_first_max_arm(hist_view(rewards@), b as int),
{
    proof {
        lemma_arm_len_le_total(hist_view(rewards@), 0);
    }
    let mut best: usize = 0;
    let mut best_sum: i64 = sum_vec(&rewards[0]);
    let mut i: usize = 1;
    while i < rewards.len()
        invariant
            1 <= i <= rewards@.len(),
            best < i,
            wf_history(hist_view(rewards@)),
            best_sum == arm_total(hist_view(rewards@)[best as int]),
            forall|j: int|
                0 <= j < i ==> arm_total(#[trigger] hist_view(rewards@)[j]) <= best_sum,
            forall|j: int| 0 <= j < best ==> arm_total(#[trigger] hist_view(rewards@)[j]) < best_sum,
        decreases rewards@.len() - i,
    {
        proof {
            lemma_arm_len_le_total(hist_view(rewards@), i as int);
        }
        let s = sum_vec(&rewards[i]);
        if s > best_sum {
            best = i;
            best_sum = s;
        }
        i = i + 1;
    }
    best
}

/// The lowest index of a maximal value: how both controllers break ties
/// among equally good candidates.
pub fn first_max_index(v: &Vec<u32>) -> (r: usize)
    requires
        v@.len() >= 1,
    ensures
        r < v@.len(),
        forall|i: int| 0 <= i < v@.len() ==> v@[i] <= v@[r as int],
        forall|i: int| 0 <= i < r ==> v@[i] < v@[r as int],
{
    let mut best: usize = 0;
    let mut i: usize = 1;
    while i < v.len()
        invariant
            1 <= i <= v@.len(),
            best < i,
            forall|j: int| 0 <= j < i ==> v@[j] <= v@[best as int],
            forall|j: int| 0 <= j < best ==> v@[j] < v@[best as int],
        decreases v@.len() - i,
    {
        if v[i] > v[best] {
            best = i;
        }
        i = i + 1;
    }
    best
}

} // verus!
