//! The Rademacher diffusive walk: a +/-1 walk under diffusive scaling.
//!
//! Over a horizon `t` with `n` trials per unit of time, the walk runs for
//! `floor(n * t)` steps of +1 or -1. Every cumulative sum is divided by
//! `sqrt(n)`, so the scaled path approximates Brownian motion as `n` grows.
//! Scaled values are carried in fixed-point micro-units: the divisor is the
//! integer square root of `n * SCALE * SCALE`, itself about
//! `sqrt(n) * SCALE`.

use vstd::prelude::*;

verus! {

use crate::distribution::{Bernoulli, Rademacher};
use crate::fixed::{SCALE, div_toward_zero, isqrt, scaled_div};
use crate::ratio::{Ratio, scale};
use crate::rng::RandomSource;

/// An immutable diffusively scaled walk.
///
/// It holds the raw cumulative +/-1 sums, the scaled values in micro-units,
/// and the fixed-point scale factor that divided them.
pub struct Simulation {
    sums: Vec<i64>,
    values: Vec<i64>,
    scale: u64,
}

impl View for Simulation {
    type V = Seq<i64>;

    closed spec fn view(&self) -> Seq<i64> {
        self.values@
    }
}

impl Simulation {
    /// The raw cumulative sums before scaling.
    pub closed spec fn sums_spec(&self) -> Seq<i64> {
        self.sums@
    }

    /// The fixed-point scale factor the sums were divided by.
    pub closed spec fn scale_spec(&self) -> u64 {
        self.scale
    }

    /// The raw cumulative sums before scaling.
    pub fn sums(&self) -> (v: &Vec<i64>)
        ensures
            v@ == self.sums_spec(),
    {
        &self.sums
    }

    /// The ordered scaled values of the walk, in micro-units.
    pub fn values(&self) -> (v: &Vec<i64>)
        ensures
            v@ == self@,
    {
        &self.values
    }

    /// The fixed-point scale factor the sums were divided by.
    pub fn scale_factor(&self) -> (s: u64)
        ensures
            s == self.scale_spec(),
    {
        self.scale
    }

    /// The last scaled value in micro-units, or zero when the walk is empty.
    pub fn final_value(&self) -> (r: i64)
        ensures
            r == if self@.len() == 0 { 0int } else { self@[self@.len() - 1] as int },
    {
        if self.values.len() == 0 {
            0
        } else {
            self.values[self.values.len() - 1]
        }
    }
}

/// Generates Rademacher diffusive walks.
#[derive(Clone, Copy, Debug)]
pub struct Simulator {
    /// Full time period.
    pub t: Ratio,
    /// Number of trials per unit of time.
    pub n: u32,
    /// Probability that a single step is +1.
    pub p: Bernoulli,
}

impl Simulator {
    /// The step probability and the horizon are valid.
    pub open spec fn wf(self) -> bool {
        self.p.wf() && self.t.wf()
    }

    /// The number of steps of one walk: `floor(n * t)`.
    pub open spec fn total_steps(self) -> int {
        (self.n * self.t.num) as int / (self.t.den as int)
    }

    /// Assembles a simulator from already validated parameters.
    pub fn new(t: Ratio, n: u32, p: Bernoulli) -> (s: Simulator)
        ensures
            s == (Simulator { t, n, p }),
    {
        Simulator { t, n, p }
    }

    /// Generates one walk of exactly `floor(n * t)` steps.
    ///
    /// Whatever the random source yields: consecutive sums differ by exactly
    /// one, the sums start at +1 or -1 and stay within `[-(i + 1), i + 1]`,
    /// and every scaled value is exactly the matching cumulative sum divided
    /// by the square-root scale factor in fixed point. A certain step
    /// probability makes the sums `1, 2, ...`; an impossible one makes them
    /// `-1, -2, ...`.
    pub fn run(&self, src: &mut RandomSource) -> (sim: Simulation)
        requires
            self.wf(),
            self.total_steps() <= 0x7fff_ffff,
        ensures
            sim@.len() == self.total_steps(),
            sim.sums_spec().len() == sim@.len(),
            (sim.scale_spec() as int) * (sim.scale_spec() as int) <= self.n * SCALE * SCALE,
            self.n * SCALE * SCALE < (sim.scale_spec() as int + 1) * (sim.scale_spec() as int + 1),
            forall|i: int|
                0 <= i < sim@.len() ==> -(i + 1) <= #[trigger] sim.sums_spec()[i] <= i + 1,
            forall|i: int|
                1 <= i < sim@.len() ==> #[trigger] sim.sums_spec()[i] == sim.sums_spec()[i - 1] + 1
                    || sim.sums_spec()[i] == sim.sums_spec()[i - 1] - 1,
            sim@.len() > 0 ==> (sim.sums_spec()[0] == 1 || sim.sums_spec()[0] == -1),
            self.p.num_spec() == self.p.den_spec() ==> forall|i: int|
                0 <= i < sim@.len() ==> #[trigger] sim.sums_spec()[i] == i + 1,
            self.p.num_spec() == 0 ==> forall|i: int|
                0 <= i < sim@.len() ==> #[trigger] sim.sums_spec()[i] == -(i + 1),
            forall|i: int|
                0 <= i < sim@.len() ==> #[trigger] sim@[i] == div_toward_zero(
                    sim.sums_spec()[i] * SCALE,
                    sim.scale_spec() as int,
                ),
    {
        let nt_u64: u64 = scale(self.n as u64, &self.t);
        let nt: usize = nt_u64 as usize;
        let rad = Rademacher::from_trial(self.p);
        proof {
            assert(self.n * SCALE * SCALE <= u128::MAX) by (nonlinear_arith)
                requires
                    self.n <= u32::MAX,
                    SCALE == 1_000_000u64,
            ;
        }
        let wide: u128 = (self.n as u128) * (SCALE as u128) * (SCALE as u128);
        let sf: u64 = isqrt(wide);
        proof {
            if nt > 0 {
                if self.n == 0 {
                    assert(self.n * self.t.num / (self.t.den as int) == 0) by (nonlinear_arith)
                        requires
                            self.n == 0,
                            self.t.den >= 1,
                    ;
                }
                assert(self.n >= 1);
                assert(sf >= 1) by (nonlinear_arith)
                    requires
                        (sf as int) * (sf as int) <= wide,
                        wide < (sf as int + 1) * (sf as int + 1),
                        wide >= 1_000_000_000_000,
                ;
            }
        }
        let mut sums: Vec<i64> = Vec::new();
        let mut values: Vec<i64> = Vec::new();
        let mut sum: i64 = 0;
        let mut k: usize = 0;
        while k < nt
            invariant
                rad.wf(),
                k <= nt,
                nt <= 0x7fff_ffff,
                nt > 0 ==> sf >= 1,
                sums@.len() == k,
                values@.len() == k,
                -(k as int) <= sum <= k as int,
                if k == 0 {
                    sum == 0
                } else {
                    sum == sums@[k - 1]
                },
                forall|i: int| 0 <= i < k ==> -(i + 1) <= #[trigger] sums@[i] <= i + 1,
                forall|i: int|
                    1 <= i < k ==> #[trigger] sums@[i] == sums@[i - 1] + 1 || sums@[i] == sums@[i
                        - 1] - 1,
                k > 0 ==> (sums@[0] == 1 || sums@[0] == -1),
                rad.trial_spec().num_spec() == self.p.num_spec(),
                rad.trial_spec().den_spec() == self.p.den_spec(),
                self.p.num_spec() == self.p.den_spec() ==> forall|i: int|
                    0 <= i < k ==> #[trigger] sums@[i] == i + 1,
                self.p.num_spec() == 0 ==> forall|i: int|
                    0 <= i < k ==> #[trigger] sums@[i] == -(i + 1),
                forall|i: int|
                    0 <= i < k ==> #[trigger] values@[i] == div_toward_zero(
                        sums@[i] * SCALE,
                        sf as int,
                    ),
            decreases nt - k,
        {
            let step = rad.sample(src);
            sum = sum + step;
            sums.push(sum);
            let v = scaled_div(sum, sf);
            values.push(v);
            k = k + 1;
        }
        Simulation { sums, values, scale: sf }
    }
}

} // verus!
