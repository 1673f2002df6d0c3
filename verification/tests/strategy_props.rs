//! Tests of the exploration strategies.

use bandits::strategy::{
    inverse_count_weights, ExplorationStrategy, ExploreNotBest, ExploreRandom, ExploreWeighted,
};
use bandits::WEIGHT_SCALE;

fn histories_with_counts(counts: &[usize]) -> Vec<Vec<i64>> {
    counts.iter().map(|&c| vec![0i64; c]).collect()
}

#[test]
fn every_strategy_exploits_when_not_exploring() {
    let choices = histories_with_counts(&[3, 1, 2]);
    let mut r = ExploreRandom::seeded(10);
    let mut n = ExploreNotBest::seeded(11);
    let mut w = ExploreWeighted::seeded(12);
    for best in 0..3 {
        assert_eq!(r.pick(false, &choices, best), best);
        assert_eq!(n.pick(false, &choices, best), best);
        assert_eq!(w.pick(false, &choices, best), best);
    }
}

#[test]
fn avoid_best_never_returns_the_current_best() {
    let choices = histories_with_counts(&[1, 1, 1, 1, 1]);
    let mut s = ExploreNotBest::seeded(13);
    for best in 0..5 {
        for _ in 0..200 {
            let a = s.pick(true, &choices, best);
            assert!(a < 5);
            assert_ne!(a, best);
        }
    }
}

#[test]
fn avoid_best_explores_all_other_arms() {
    let choices = histories_with_counts(&[0, 0, 0, 0]);
    let mut s = ExploreNotBest::seeded(14);
    let mut counts = vec![0usize; 4];
    for _ in 0..3000 {
        counts[s.pick(true, &choices, 2)] += 1;
    }
    assert_eq!(counts[2], 0);
    // the three remaining arms are drawn uniformly: expectation 1000 each
    for &i in &[0usize, 1, 3] {
        assert!(counts[i] > 800 && counts[i] < 1200, "counts: {:?}", counts);
    }
}

#[test]
fn avoid_best_degenerates_with_a_single_arm() {
    let choices = histories_with_counts(&[2]);
    let mut s = ExploreNotBest::seeded(15);
    assert_eq!(s.pick(true, &choices, 0), 0);
}

#[test]
fn random_explore_covers_the_whole_range() {
    let choices = histories_with_counts(&[0, 0, 0]);
    let mut s = ExploreRandom::seeded(16);
    let mut seen = [false; 3];
    for _ in 0..200 {
        let a = s.pick(true, &choices, 1);
        assert!(a < 3);
        seen[a] = true;
    }
    assert!(seen[0] && seen[1] && seen[2]);
}

#[test]
fn weighted_explore_favors_rarely_observed_arms() {
    // arm 0 observed nine times, arm 1 never: weights 1/10 against 1/1
    let choices = histories_with_counts(&[9, 0]);
    let mut s = ExploreWeighted::seeded(17);
    let mut counts = [0usize; 2];
    for _ in 0..2000 {
        counts[s.pick(true, &choices, 0)] += 1;
    }
    // arm 1 is ten times as likely: expectation about 1818 against 182
    assert!(
        counts[1] > counts[0] * 4,
        "inverse-count weighting not visible: {:?}",
        counts
    );
}

#[test]
fn inverse_count_weights_are_exact() {
    let choices = histories_with_counts(&[0, 4, 19]);
    let w = inverse_count_weights(&choices);
    assert_eq!(w, vec![WEIGHT_SCALE, WEIGHT_SCALE / 5, WEIGHT_SCALE / 20]);
}

#[test]
fn weighted_explore_frequency_orders_by_observation_count() {
    let choices = histories_with_counts(&[0, 4, 19]);
    let mut s = ExploreWeighted::seeded(18);
    let mut counts = [0usize; 3];
    for _ in 0..4000 {
        counts[s.pick(true, &choices, 1)] += 1;
    }
    // weights proportional to 1, 1/5, 1/20: strictly fewer picks with more
    // observations
    assert!(counts[0] > counts[1] && counts[1] > counts[2], "counts: {:?}", counts);
}
