//! The non-stationary reward source: a fixed table of per-arm normal
//! distributions, regenerable deterministically from the step index alone.
//!
//! Every arm's mean declines by one milli-unit per step (a drift of `-0.001`
//! per step in real units), and four designated arms gain a fixed additive
//! offset once the step index exceeds [`SHIFT_STEP`], modeling an abrupt
//! regime change.  Drawing a sample from a distribution is floating-point
//! work and stays outside this crate: a caller reads the (mean, standard
//! deviation) pair and samples with the generator of its choice.

use vstd::prelude::*;
use crate::ARM_COUNT;

verus! {

/// The step index after which the shifted arms' offsets switch on.
pub const SHIFT_STEP: i32 = 3000;

/// Parameters of one arm's normal reward distribution, in milli-units.
#[derive(Clone, Copy, PartialEq, Eq, Structural, Debug)]
pub struct NormalParams {
    /// Mean of the distribution, in milli-units.
    pub mean_milli: i64,
    /// Standard deviation of the distribution, in milli-units.
    pub std_milli: i64,
}

/// Constructing a distribution with a non-positive standard deviation is a
/// configuration error, raised at construction time and never clamped.
#[derive(Clone, Copy, PartialEq, Eq, Structural, Debug)]
pub enum ConfigError {
    /// The requested standard deviation was zero or negative.
    NonPositiveStdDev,
}

impl NormalParams {
    /// A distribution's parameters are valid when its spread is positive.
    pub open spec fn wf(self) -> bool {
        self.std_milli > 0
    }

    /// Validating constructor: fails fast on a non-positive standard
    /// deviation, never silently corrects it.
    pub fn new(mean_milli: i64, std_milli: i64) -> (r: Result<NormalParams, ConfigError>)
        ensures
            std_milli > 0 <==> r is Ok,
            r matches Ok(p) ==> p.mean_milli == mean_milli && p.std_milli == std_milli && p.wf(),
            r matches Err(e) ==> e == ConfigError::NonPositiveStdDev,
    {
        if std_milli > 0 {
            Ok(NormalParams { mean_milli, std_milli })
        } else {
            Err(ConfigError::NonPositiveStdDev)
        }
    }
}

/// Baseline mean of arm `i`, in milli-units, before drift and shift.
pub open spec fn base_mean_milli(i: int) -> int {
    if i == 0 { 0 }
    else if i == 1 { -500 }
    else if i == 2 { 2000 }
    else if i == 3 { -500 }
    else if i == 4 { -1200 }
    else if i == 5 { -3000 }
    else if i == 6 { -10000 }
    else if i == 7 { -500 }
    else if i == 8 { -1000 }
    else if i == 9 { 1000 }
    else if i == 10 { 700 }
    else if i == 11 { -6000 }
    else if i == 12 { -7000 }
    else if i == 13 { -500 }
    else if i == 14 { -6500 }
    else if i == 15 { -3000 }
    else if i == 16 { 0 }
    else if i == 17 { 2000 }
    else if i == 18 { -9000 }
    else if i == 19 { -1000 }
    else { -4500 }
}

/// Standard deviation of arm `i`, in milli-units; fixed over time.
pub open spec fn arm_std_milli(i: int) -> int {
    if i == 0 { 5000 }
    else if i == 1 { 12000 }
    else if i == 2 { 3900 }
    else if i == 3 { 7000 }
    else if i == 4 { 8000 }
    else if i == 5 { 7000 }
    else if i == 6 { 20000 }
    else if i == 7 { 1000 }
    else if i == 8 { 2000 }
    else if i == 9 { 6000 }
    else if i == 10 { 4000 }
    else if i == 11 { 11000 }
    else if i == 12 { 1000 }
    else if i == 13 { 2000 }
    else if i == 14 { 1000 }
    else if i == 15 { 6000 }
    else if i == 16 { 8000 }
    else if i == 17 { 3900 }
    else if i == 18 { 12000 }
    else if i == 19 { 6000 }
    else { 8000 }
}

/// One-time additive offset of arm `i`, switched on permanently once the
/// step index exceeds [`SHIFT_STEP`]; zero for every other arm.
pub open spec fn shift_offset_milli(step: int, i: int) -> int {
    if step > SHIFT_STEP {
        if i == 0 { 7000 }
        else if i == 2 { 3000 }
        else if i == 7 { 1000 }
        else if i == 18 { 2000 }
        else { 0 }
    } else {
        0
    }
}

/// Mean of arm `i` at time `step`: the baseline, a global drift of minus
/// one milli-unit per step, and the arm's regime-shift offset.
pub open spec fn arm_mean_milli(step: int, i: int) -> int {
    base_mean_milli(i) - step + shift_offset_milli(step, i)
}

/// Law: at or below the shift step every arm's mean is exactly its drifted
/// baseline; above it the four designated arms' means are exactly their
/// drifted baselines plus their fixed offsets, and every other arm's mean is
/// still its drifted baseline.
pub proof fn lemma_regime_shift(step: int, i: int)
    requires
        0 <= i < ARM_COUNT,
    ensures
        step <= SHIFT_STEP ==> arm_mean_milli(step, i) == base_mean_milli(i) - step,
        step > SHIFT_STEP && i == 0 ==> arm_mean_milli(step, i) == base_mean_milli(i) - step
            + 7000,
        step > SHIFT_STEP && i == 2 ==> arm_mean_milli(step, i) == base_mean_milli(i) - step
            + 3000,
        step > SHIFT_STEP && i == 7 ==> arm_mean_milli(step, i) == base_mean_milli(i) - step
            + 1000,
        step > SHIFT_STEP && i == 18 ==> arm_mean_milli(step, i) == base_mean_milli(i) - step
            + 2000,
        !(i == 0 || i == 2 || i == 7 || i == 18) ==> arm_mean_milli(step, i) == base_mean_milli(i)
            - step,
{
}

/// Parameters of arm `i`'s distribution at time `step`.
fn arm_params(step: i32, i: usize) -> (p: NormalParams)
    requires
        i < ARM_COUNT,
    ensures
        p.mean_milli == arm_mean_milli(step as int, i as int),
        p.std_milli == arm_std_milli(i as int),
        p.wf(),
{
    let base: i64 =
        if i == 0 { 0 }
        else if i == 1 { -500 }
        else if i == 2 { 2000 }
        else if i == 3 { -500 }
        else if i == 4 { -1200 }
        else if i == 5 { -3000 }
        else if i == 6 { -10000 }
        else if i == 7 { -500 }
        else if i == 8 { -1000 }
        else if i == 9 { 1000 }
        else if i == 10 { 700 }
        else if i == 11 { -6000 }
        else if i == 12 { -7000 }
        else if i == 13 { -500 }
        else if i == 14 { -6500 }
        else if i == 15 { -3000 }
        else if i == 16 { 0 }
        else if i == 17 { 2000 }
        else if i == 18 { -9000 }
        else if i == 19 { -1000 }
        else { -4500 };
    let spread: i64 =
        if i == 0 { 5000 }
        else if i == 1 { 12000 }
        else if i == 2 { 3900 }
        else if i == 3 { 7000 }
        else if i == 4 { 8000 }
        else if i == 5 { 7000 }
        else if i == 6 { 20000 }
        else if i == 7 { 1000 }
        else if i == 8 { 2000 }
        else if i == 9 { 6000 }
        else if i == 10 { 4000 }
        else if i == 11 { 11000 }
        else if i == 12 { 1000 }
        else if i == 13 { 2000 }
        else if i == 14 { 1000 }
        else if i == 15 { 6000 }
        else if i == 16 { 8000 }
        else if i == 17 { 3900 }
        else if i == 18 { 12000 }
        else if i == 19 { 6000 }
        else { 8000 };
    let offset: i64 = if step > SHIFT_STEP {
        if i == 0 { 7000 }
        else if i == 2 { 3000 }
        else if i == 7 { 1000 }
        else if i == 18 { 2000 }
        else { 0 }
    } else {
        0
    };
    NormalParams { mean_milli: base - (step as i64) + offset, std_milli: spread }
}

/// The distributions of all [`ARM_COUNT`] arms valid at time `step`: a pure
/// function of the step index, safe to recompute every round.
pub fn probabilities(step: i32) -> (r: Vec<NormalParams>)
    ensures
        r@.len() == ARM_COUNT,
        forall|i: int|
            0 <= i < ARM_COUNT ==> (#[trigger] r@[i]).mean_milli == arm_mean_milli(
                step as int,
                i,
            ) && r@[i].std_milli == arm_std_milli(i) && r@[i].wf(),
{
    let mut r: Vec<NormalParams> = Vec::new();
    let mut i: usize = 0;
    while i < ARM_COUNT
        invariant
            0 <= i <= ARM_COUNT,
            r@.len() == i,
            forall|j: int|
                0 <= j < i ==> (#[trigger] r@[j]).mean_milli == arm_mean_milli(step as int, j)
                    && r@[j].std_milli == arm_std_milli(j) && r@[j].wf(),
        decreases ARM_COUNT - i,
    {
        r.push(arm_params(step, i));
        i = i + 1;
    }
    r
}

} // verus!
