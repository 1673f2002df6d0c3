//! Tests of the epsilon-greedy controller.

use bandits::greedy::EpsilonGreedy;
use bandits::strategy::ExploreRandom;
use bandits::EPSILON_SCALE;
use rand::rngs::SmallRng;
use rand::SeedableRng;
use rand_distr::{Distribution, Normal};

#[test]
fn zero_epsilon_exploits_the_best_arm() {
    let mut c = EpsilonGreedy::new(3, ExploreRandom::seeded(1));
    // fresh controller: all sums are zero, the tie breaks to the lowest index
    assert_eq!(c.pick(0), 0);
    c.update(2, 5_000);
    c.update(1, 4_000);
    assert_eq!(c.pick(0), 2);
    c.update(1, 2_000);
    // arm 1 now sums to 6000, above arm 2's 5000
    assert_eq!(c.pick(0), 1);
}

#[test]
fn zero_epsilon_picks_are_deterministic() {
    let mut c = EpsilonGreedy::new(5, ExploreRandom::seeded(2));
    c.update(3, 1_000);
    let first = c.pick(0);
    for _ in 0..50 {
        assert_eq!(c.pick(0), first);
    }
}

#[test]
fn full_epsilon_random_exploration_is_roughly_uniform() {
    let n = 4;
    let mut c = EpsilonGreedy::new(n, ExploreRandom::seeded(3));
    let trials = 4000;
    let mut counts = vec![0usize; n];
    for _ in 0..trials {
        let a = c.pick(EPSILON_SCALE);
        assert!(a < n);
        counts[a] += 1;
    }
    // expectation 1000 per arm; allow a generous statistical margin
    for &k in &counts {
        assert!(k > 800 && k < 1200, "non-uniform counts: {:?}", counts);
    }
}

#[test]
fn reward_is_undefined_before_any_observation() {
    let c = EpsilonGreedy::new(2, ExploreRandom::seeded(4));
    assert_eq!(c.reward(), None);
}

#[test]
fn reward_is_the_exact_running_mean() {
    let mut c = EpsilonGreedy::new(2, ExploreRandom::seeded(5));
    c.update(0, 1_000);
    c.update(1, -4_000);
    c.update(0, 6_000);
    assert_eq!(c.reward(), Some((3_000, 3)));
}

#[test]
fn reward_is_idempotent_between_updates() {
    let mut c = EpsilonGreedy::new(3, ExploreRandom::seeded(6));
    assert_eq!(c.reward(), c.reward());
    c.update(1, 7_500);
    c.update(2, -2_500);
    let a = c.reward();
    let b = c.reward();
    assert_eq!(a, b);
    assert_eq!(a, Some((5_000, 2)));
}

#[test]
fn converges_to_the_high_mean_arm() {
    // two arms with means 10.0 and -10.0 and small spread, pure exploitation
    let mut rng = SmallRng::seed_from_u64(7);
    let high = Normal::new(10.0f32, 0.1).unwrap();
    let low = Normal::new(-10.0f32, 0.1).unwrap();
    let mut c = EpsilonGreedy::new(2, ExploreRandom::seeded(8));
    let first = c.pick(0);
    assert_eq!(first, 0); // zero-reward tie breaks to the lowest index
    for step in 0..100 {
        let choice = c.pick(0);
        if step > 0 {
            // after one observation of arm 0 near +10, it stays the best
            assert_eq!(choice, 0);
        }
        let x = if choice == 0 {
            high.sample(&mut rng)
        } else {
            low.sample(&mut rng)
        };
        c.update(choice, (x * 1000.0) as i64);
    }
    let (sum, count) = c.reward().unwrap();
    assert_eq!(count, 100);
    let mean_milli = sum as f64 / count as f64;
    assert!(
        mean_milli > 9_800.0 && mean_milli < 10_200.0,
        "running mean {} milli not near 10.0",
        mean_milli
    );
}

#[test]
fn observation_counts_follow_updates() {
    let mut c = EpsilonGreedy::new(2, ExploreRandom::seeded(9));
    assert_eq!(c.arms(), 2);
    assert_eq!(c.observations_of(0), 0);
    c.update(0, 100);
    c.update(0, 200);
    c.update(1, 300);
    assert_eq!(c.observations_of(0), 2);
    assert_eq!(c.observations_of(1), 1);
}
