//! A multi-armed bandit decision engine.
//!
//! An agent repeatedly chooses among `N` reward-generating arms, observes a
//! stochastic reward, and updates its belief about which arm is best.  The
//! crate provides an epsilon-greedy controller with pluggable exploration
//! strategies, a Thompson-sampling controller with Beta-Bernoulli beliefs,
//! and a deterministic, non-stationary reward-distribution table.
//!
//! Rewards, means and standard deviations are fixed-point integers in
//! milli-units (a value of `1500` stands for `1.5`); exploration
//! probabilities are in parts per million of [`EPSILON_SCALE`].

use vstd::prelude::*;

pub mod history;
pub mod sampling;
pub mod source;
pub mod strategy;
pub mod greedy;
pub mod thompson;

pub use crate::greedy::EpsilonGreedy;
pub use crate::source::probabilities;
pub use crate::strategy::ExplorationStrategy;
pub use crate::strategy::ExploreNotBest;
pub use crate::strategy::ExploreRandom;
pub use crate::strategy::ExploreWeighted;
pub use crate::thompson::ThompsonSample;

verus! {

/// Horizon of the reference experiments: number of rounds in one run.
pub const STEPS: i32 = 10000;

/// Number of arms in the reference reward-distribution table.
pub const ARM_COUNT: usize = 21;

/// Largest arm count a controller accepts (keeps weight sums within `u64`).
pub const MAX_ARMS: usize = 0x10_0000;

/// Largest total number of observations a controller accepts
/// (keeps every reward sum within `i64`).
pub const MAX_OBS: usize = 0x4000_0000;

/// Largest reward magnitude, in milli-units, an `update` accepts
/// (keeps every reward sum within `i64`).
pub const REWARD_LIMIT: i64 = 0x1_0000_0000;

/// Exploration probabilities are given in parts per million:
/// `EPSILON_SCALE` stands for probability one.
pub const EPSILON_SCALE: usize = 1_000_000;

/// Scale of the inverse-count exploration weights.
pub const WEIGHT_SCALE: u64 = 0x1_0000_0000;

} // verus!
