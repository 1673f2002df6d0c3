//! Tests of the Thompson-sampling controller.  The Beta posterior draws are
//! floating-point and happen here, outside the library: the controller hands
//! out the smoothed shape pairs and takes back the samples' bit patterns.

use bandits::thompson::ThompsonSample;
use rand::rngs::SmallRng;
use rand::SeedableRng;
use rand_distr::{Beta, Distribution};

fn draw_codes(t: &ThompsonSample, rng: &mut SmallRng) -> Vec<u32> {
    t.posterior_shapes()
        .iter()
        .map(|&(a, b)| {
            let d = Beta::new(a as f32, b as f32).unwrap();
            d.sample(rng).to_bits()
        })
        .collect()
}

#[test]
fn update_classifies_rewards_by_sign() {
    let mut t = ThompsonSample::new(2);
    assert_eq!(t.belief_of(0), (0, 0));
    t.update(0, 1_500);
    t.update(0, -1);
    t.update(0, 0);
    t.update(1, 2);
    assert_eq!(t.belief_of(0), (1, 2));
    assert_eq!(t.belief_of(1), (1, 0));
}

#[test]
fn posterior_shapes_are_laplace_smoothed() {
    let mut t = ThompsonSample::new(3);
    t.update(1, 100);
    t.update(1, 100);
    t.update(2, -100);
    let shapes = t.posterior_shapes();
    assert_eq!(shapes, vec![(1, 1), (3, 1), (1, 2)]);
}

#[test]
fn pick_returns_the_first_maximal_sample() {
    let t = ThompsonSample::new(4);
    assert_eq!(t.pick(&vec![1, 9, 9, 3]), 1);
    assert_eq!(t.pick(&vec![7, 7, 7, 7]), 0);
    assert_eq!(t.pick(&vec![0, 1, 2, 8]), 3);
}

#[test]
fn pick_probability_converges_on_the_rewarded_arm() {
    let mut t = ThompsonSample::new(3);
    for _ in 0..100 {
        t.update(1, 1_000);
    }
    let mut rng = SmallRng::seed_from_u64(20);
    let mut hits = 0;
    let trials = 200;
    for _ in 0..trials {
        let codes = draw_codes(&t, &mut rng);
        if t.pick(&codes) == 1 {
            hits += 1;
        }
    }
    assert!(hits > trials * 8 / 10, "rewarded arm picked only {}/{}", hits, trials);
}

#[test]
fn reward_is_the_exact_running_mean_and_idempotent() {
    let mut t = ThompsonSample::new(2);
    assert_eq!(t.reward(), None);
    t.update(0, 4_000);
    t.update(1, -1_000);
    assert_eq!(t.reward(), Some((3_000, 2)));
    assert_eq!(t.reward(), t.reward());
}

#[test]
fn belief_reset_clears_evidence_but_not_the_metric() {
    let mut t = ThompsonSample::new(2);
    for _ in 0..50 {
        t.update(0, 2_000);
        t.update(1, -2_000);
    }
    let before = t.reward();
    t.reset_beliefs();
    assert_eq!(t.reward(), before);
    assert_eq!(t.belief_of(0), (0, 0));
    assert_eq!(t.belief_of(1), (0, 0));
    assert_eq!(t.posterior_shapes(), vec![(1, 1), (1, 1)]);
}

#[test]
fn picks_after_reset_match_a_fresh_controller() {
    // drive the controller hard toward arm 0, then forget
    let mut t = ThompsonSample::new(2);
    for _ in 0..200 {
        t.update(0, 5_000);
        t.update(1, -5_000);
    }
    t.reset_beliefs();
    let mut rng = SmallRng::seed_from_u64(21);
    let trials = 400;
    let mut zero_hits = 0;
    for _ in 0..trials {
        let codes = draw_codes(&t, &mut rng);
        if t.pick(&codes) == 0 {
            zero_hits += 1;
        }
    }
    // both posteriors are uniform again: no bias toward the old favorite
    assert!(
        zero_hits > 140 && zero_hits < 260,
        "biased picks after reset: {}/{}",
        zero_hits,
        trials
    );
}
