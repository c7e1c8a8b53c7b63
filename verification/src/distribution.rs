//! Single-draw samplers: Bernoulli trials and Rademacher steps.

use vstd::prelude::*;

verus! {

use crate::ParamError;
use crate::rng::RandomSource;

/// A Bernoulli trial with success probability `num / den`.
///
/// Sampling draws one uniform variate below `den` and compares it against
/// `num`, so the success probability is exactly `num / den`. The trial is
/// stateless and reusable across independent draws.
#[derive(Clone, Copy, Debug, PartialEq, Eq, Structural)]
pub struct Bernoulli {
    num: u64,
    den: u64,
}

impl Bernoulli {
    /// The numerator of the success probability.
    pub closed spec fn num_spec(self) -> u64 {
        self.num
    }

    /// The denominator of the success probability.
    pub closed spec fn den_spec(self) -> u64 {
        self.den
    }

    /// The probability is a rational number in [0, 1].
    pub open spec fn wf(self) -> bool {
        self.den_spec() > 0 && self.num_spec() <= self.den_spec()
    }

    /// Builds a trial with success probability `num / den`; a probability
    /// outside [0, 1] is rejected.
    pub fn new(num: u64, den: u64) -> (r: Result<Bernoulli, ParamError>)
        ensures
            r is Ok <==> (den > 0 && num <= den),
            r matches Ok(b) ==> b.num_spec() == num && b.den_spec() == den && b.wf(),
            r matches Err(e) ==> e == ParamError::InvalidProbability,
    {
        if den > 0 && num <= den {
            Ok(Bernoulli { num, den })
        } else {
            Err(ParamError::InvalidProbability)
        }
    }

    /// Draws one outcome: success with probability `num / den`. An
    /// impossible trial never succeeds and a certain trial always does.
    pub fn sample(&self, src: &mut RandomSource) -> (b: bool)
        requires
            self.wf(),
        ensures
            self.num_spec() == 0 ==> !b,
            self.num_spec() == self.den_spec() ==> b,
    {
        let u = src.uniform_below(self.den);
        u < self.num
    }
}

/// A Rademacher variable: +1 with probability `p`, otherwise -1.
#[derive(Clone, Copy, Debug, PartialEq, Eq, Structural)]
pub struct Rademacher {
    trial: Bernoulli,
}

impl Rademacher {
    /// The underlying Bernoulli trial.
    pub closed spec fn trial_spec(self) -> Bernoulli {
        self.trial
    }

    /// The success probability is a rational number in [0, 1].
    pub open spec fn wf(self) -> bool {
        self.trial_spec().wf()
    }

    /// Builds a Rademacher variable with success probability `num / den`; a
    /// probability outside [0, 1] is rejected.
    pub fn new(num: u64, den: u64) -> (r: Result<Rademacher, ParamError>)
        ensures
            r is Ok <==> (den > 0 && num <= den),
            r matches Ok(d) ==> d.wf(),
            r matches Err(e) ==> e == ParamError::InvalidProbability,
    {
        match Bernoulli::new(num, den) {
            Ok(trial) => Ok(Rademacher { trial }),
            Err(e) => Err(e),
        }
    }

    /// Wraps an already validated Bernoulli trial.
    pub fn from_trial(trial: Bernoulli) -> (r: Rademacher)
        ensures
            r.trial_spec() == trial,
    {
        Rademacher { trial }
    }

    /// Draws one step: +1 on success, -1 on failure, never any other value.
    /// A certain variable always steps +1 and an impossible one always -1.
    pub fn sample(&self, src: &mut RandomSource) -> (s: i64)
        requires
            self.wf(),
        ensures
            s == 1 || s == -1,
            self.trial_spec().num_spec() == 0 ==> s == -1,
            self.trial_spec().num_spec() == self.trial_spec().den_spec() ==> s == 1,
    {
        if self.trial.sample(src) {
            1
        } else {
            -1
        }
    }
}

} // verus!
