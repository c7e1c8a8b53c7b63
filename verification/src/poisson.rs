//! The Poisson arrival counter: a cumulative 0/1 counting process.
//!
//! Over a horizon `t` split into `n` trials with rate `lambda`, each trial
//! succeeds with the derived probability `lambda / n`, and the running count
//! of successes is recorded after every trial.

use vstd::prelude::*;

verus! {

use crate::ParamError;
use crate::distribution::Bernoulli;
use crate::ratio::Ratio;
use crate::rng::RandomSource;

/// An immutable counting process, one running count per trial.
pub struct Simulation {
    values: Vec<i64>,
}

impl View for Simulation {
    type V = Seq<i64>;

    closed spec fn view(&self) -> Seq<i64> {
        self.values@
    }
}

impl Simulation {
    /// The ordered counts of the simulation.
    pub fn values(&self) -> (v: &Vec<i64>)
        ensures
            v@ == self@,
    {
        &self.values
    }

    /// The last count, or zero when the simulation is empty.
    pub fn final_value(&self) -> (r: i64)
        ensures
            r == if self@.len() == 0 { 0int } else { self@[self@.len() - 1] as int },
    {
        if self.values.len() == 0 {
            0
        } else {
            self.values[self.values.len() - 1]
        }
    }
}

/// Generates Poisson counting processes.
#[derive(Clone, Copy, Debug)]
pub struct Simulator {
    /// Full time period.
    pub t: Ratio,
    /// Number of trials the period is split into.
    pub n: u32,
    /// Success rate over one unit of time.
    pub lambda: Ratio,
    /// The derived per-trial success probability `lambda / n`.
    pub p: Bernoulli,
}

impl Simulator {
    /// The derived per-trial probability is valid.
    pub open spec fn wf(self) -> bool {
        self.p.wf()
    }

    /// Builds a simulator, deriving the per-trial success probability
    /// `lambda / n`.
    ///
    /// The derived probability is the rational `lambda.num / (n * lambda.den)`
    /// and always lies in [0, 1]: a rate above the trial count, which would
    /// push it past one, is rejected, as are zero trials and a denominator
    /// too large to represent.
    pub fn new(t: Ratio, n: u32, lambda: Ratio) -> (r: Result<Simulator, ParamError>)
        ensures
            r is Ok <==> (lambda.den > 0 && n > 0 && lambda.num <= n * lambda.den && n * lambda.den
                <= u64::MAX),
            r matches Ok(s) ==> s.t == t && s.n == n && s.lambda == lambda && s.wf()
                && s.p.num_spec() == lambda.num && s.p.den_spec() == n * lambda.den,
            r matches Err(e) ==> e == if lambda.den == 0 {
                ParamError::InvalidRatio
            } else if n == 0 {
                ParamError::ZeroTrials
            } else if lambda.num > n * lambda.den {
                ParamError::RateExceedsTrials
            } else {
                ParamError::CapacityExceeded
            },
    {
        if lambda.den == 0 {
            return Err(ParamError::InvalidRatio);
        }
        if n == 0 {
            return Err(ParamError::ZeroTrials);
        }
        proof {
            assert(n * lambda.den <= u128::MAX && n * lambda.den >= 1) by (nonlinear_arith)
                requires
                    1 <= n <= u32::MAX,
                    1 <= lambda.den <= u64::MAX,
            ;
        }
        let wide_den: u128 = (n as u128) * (lambda.den as u128);
        if (lambda.num as u128) > wide_den {
            return Err(ParamError::RateExceedsTrials);
        }
        if wide_den > u64::MAX as u128 {
            return Err(ParamError::CapacityExceeded);
        }
        match Bernoulli::new(lambda.num, wide_den as u64) {
            Ok(p) => Ok(Simulator { t, n, lambda, p }),
            Err(e) => Err(e),
        }
    }

    /// Generates one counting process of exactly `n` running counts.
    ///
    /// Whatever the random source yields: counts never decrease, grow by at
    /// most one per trial, and the count after `i` trials stays within
    /// `[0, i + 1]`. A zero rate counts nothing; a certain rate (probability
    /// one) counts every trial, so the counts are `1, 2, ..., n`.
    pub fn run(&self, src: &mut RandomSource) -> (sim: Simulation)
        requires
            self.wf(),
        ensures
            sim@.len() == self.n,
            forall|i: int| 0 <= i < sim@.len() ==> 0 <= #[trigger] sim@[i] <= i + 1,
            forall|i: int|
                1 <= i < sim@.len() ==> #[trigger] sim@[i] == sim@[i - 1] || sim@[i] == sim@[i - 1]
                    + 1,
            self.p.num_spec() == 0 ==> forall|i: int|
                0 <= i < sim@.len() ==> #[trigger] sim@[i] == 0,
            self.p.num_spec() == self.p.den_spec() ==> forall|i: int|
                0 <= i < sim@.len() ==> #[trigger] sim@[i] == i + 1,
    {
        let mut values: Vec<i64> = Vec::new();
        let mut sum: i64 = 0;
        let mut k: u32 = 0;
        while k < self.n
            invariant
                self.wf(),
                k <= self.n,
                values@.len() == k,
                0 <= sum <= k as int,
                if k == 0 {
                    sum == 0
                } else {
                    sum == values@[k - 1]
                },
                forall|i: int| 0 <= i < k ==> 0 <= #[trigger] values@[i] <= i + 1,
                forall|i: int|
                    1 <= i < k ==> #[trigger] values@[i] == values@[i - 1] || values@[i]
                        == values@[i - 1] + 1,
                self.p.num_spec() == 0 ==> forall|i: int|
                    0 <= i < k ==> #[trigger] values@[i] == 0,
                self.p.num_spec() == self.p.den_spec() ==> forall|i: int|
                    0 <= i < k ==> #[trigger] values@[i] == i + 1,
            decreases self.n - k,
        {
            let success = self.p.sample(src);
            if success {
                sum = sum + 1;
            }
            values.push(sum);
            k = k + 1;
        }
        Simulation { values }
    }
}

} // verus!
