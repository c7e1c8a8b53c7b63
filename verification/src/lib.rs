//! Discrete-time stochastic process simulators.
//!
//! The library generates simple random walks, Poisson counting processes,
//! Rademacher-scaled diffusive walks, and Euler-Maruyama sample paths of
//! stochastic differential equations. Real-valued parameters are carried as
//! exact rationals ([`ratio::Ratio`]) and real-valued path values in
//! fixed-point micro-units ([`fixed::SCALE`]), so every step rule is exact
//! integer arithmetic with a proved contract. Randomness comes from a single
//! uniform source ([`rng::RandomSource`]); every derived draw (Bernoulli,
//! Rademacher) is built on it by verified comparison logic.

use vstd::prelude::*;

pub mod distribution;
pub mod fixed;
pub mod poisson;
pub mod process;
pub mod rademacher;
pub mod ratio;
pub mod rng;
pub mod walk;

verus! {

/// A parameter validation failure, reported at construction time.
///
/// Simulators validate every parameter before a run begins; once a simulator
/// is constructed, running it cannot fail.
#[derive(Clone, Copy, Debug, PartialEq, Eq, Structural)]
pub enum ParamError {
    /// A probability was not a rational number in [0, 1].
    InvalidProbability,
    /// A rational parameter had a zero denominator.
    InvalidRatio,
    /// A Poisson simulator was asked for zero trials, so the per-trial
    /// probability is undefined.
    ZeroTrials,
    /// A Poisson rate exceeded the trial count, which would make the derived
    /// per-trial probability exceed one.
    RateExceedsTrials,
    /// An Euler-Maruyama step size was zero.
    ZeroStepSize,
    /// An Euler-Maruyama configuration derived zero steps.
    ZeroSteps,
    /// A derived quantity was too large for the machine representation.
    CapacityExceeded,
}

} // verus!
