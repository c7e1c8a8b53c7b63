//! The attacker random walk: a cumulative +/-1 walk over `n` steps.
//!
//! Each step runs `m` independent Bernoulli trials; the step is -1 when any
//! trial succeeds ("the server was violated") and +1 otherwise.

use vstd::prelude::*;

verus! {

use crate::distribution::Bernoulli;
use crate::rng::RandomSource;

/// An immutable cumulative walk, one integer value per step.
pub struct RandomWalk {
    values: Vec<i64>,
}

impl View for RandomWalk {
    type V = Seq<i64>;

    closed spec fn view(&self) -> Seq<i64> {
        self.values@
    }
}

impl RandomWalk {
    /// The ordered values of the walk.
    pub fn values(&self) -> (v: &Vec<i64>)
        ensures
            v@ == self@,
    {
        &self.values
    }

    /// The last value of the walk, or zero when the walk is empty.
    pub fn final_value(&self) -> (r: i64)
        ensures
            r == if self@.len() == 0 { 0int } else { self@[self@.len() - 1] as int },
    {
        if self.values.len() == 0 {
            0
        } else {
            self.values[self.values.len() - 1]
        }
    }
}

/// Generates attacker random walks.
#[derive(Clone, Copy, Debug)]
pub struct Simulator {
    /// Number of steps (weeks).
    pub n: u32,
    /// Number of attackers per step.
    pub m: u32,
    /// Probability that one attacker violates the server in one step.
    pub p: Bernoulli,
}

impl Simulator {
    /// The per-attacker probability is valid.
    pub open spec fn wf(self) -> bool {
        self.p.wf()
    }

    /// Assembles a simulator from already validated parameters.
    pub fn new(n: u32, m: u32, p: Bernoulli) -> (s: Simulator)
        ensures
            s == (Simulator { n, m, p }),
    {
        Simulator { n, m, p }
    }

    /// One step of the walk: -1 when any of the `m` attackers succeeds,
    /// +1 otherwise. With no attackers, or with an impossible probability,
    /// no trial can succeed, so the step is +1; with at least one attacker
    /// and a certain probability the step is always -1.
    fn random_step(&self, src: &mut RandomSource) -> (step: i64)
        requires
            self.wf(),
        ensures
            step == 1 || step == -1,
            self.m == 0 ==> step == 1,
            self.p.num_spec() == 0 ==> step == 1,
            self.m >= 1 && self.p.num_spec() == self.p.den_spec() ==> step == -1,
    {
        let mut violated = false;
        let mut i: u32 = 0;
        while i < self.m
            invariant
                self.wf(),
                i <= self.m,
                self.m == 0 ==> !violated,
                self.p.num_spec() == 0 ==> !violated,
                i >= 1 && self.p.num_spec() == self.p.den_spec() ==> violated,
            decreases self.m - i,
        {
            let hit = self.p.sample(src);
            violated = violated || hit;
            i = i + 1;
        }
        if violated {
            -1
        } else {
            1
        }
    }

    /// Generates one walk of exactly `n` cumulative values.
    ///
    /// Whatever the random source yields: consecutive values differ by
    /// exactly one, the walk starts at +1 or -1, and the value after `i`
    /// steps stays within `[-(i + 1), i + 1]`. With no attackers, or with an
    /// impossible probability, every step is +1, so the walk is
    /// `1, 2, ..., n`; with at least one attacker and a certain probability
    /// every step is -1, so the walk is `-1, -2, ..., -n`.
    pub fn random_walk(&self, src: &mut RandomSource) -> (w: RandomWalk)
        requires
            self.wf(),
        ensures
            w@.len() == self.n,
            forall|i: int| 0 <= i < w@.len() ==> -(i + 1) <= #[trigger] w@[i] <= i + 1,
            forall|i: int|
                1 <= i < w@.len() ==> #[trigger] w@[i] == w@[i - 1] + 1 || w@[i] == w@[i - 1] - 1,
            w@.len() > 0 ==> (w@[0] == 1 || w@[0] == -1),
            self.m == 0 || self.p.num_spec() == 0 ==> forall|i: int|
                0 <= i < w@.len() ==> #[trigger] w@[i] == i + 1,
            self.m >= 1 && self.p.num_spec() == self.p.den_spec() ==> forall|i: int|
                0 <= i < w@.len() ==> #[trigger] w@[i] == -(i + 1),
    {
        let mut values: Vec<i64> = Vec::new();
        let mut sum: i64 = 0;
        let mut k: u32 = 0;
        while k < self.n
            invariant
                self.wf(),
                k <= self.n,
                values@.len() == k,
                -(k as int) <= sum <= k as int,
                if k == 0 {
                    sum == 0
                } else {
                    sum == values@[k - 1]
                },
                forall|i: int| 0 <= i < k ==> -(i + 1) <= #[trigger] values@[i] <= i + 1,
                forall|i: int|
                    1 <= i < k ==> #[trigger] values@[i] == values@[i - 1] + 1 || values@[i]
                        == values@[i - 1] - 1,
                k > 0 ==> (values@[0] == 1 || values@[0] == -1),
                self.m == 0 || self.p.num_spec() == 0 ==> forall|i: int|
                    0 <= i < k ==> #[trigger] values@[i] == i + 1,
                self.m >= 1 && self.p.num_spec() == self.p.den_spec() ==> forall|i: int|
                    0 <= i < k ==> #[trigger] values@[i] == -(i + 1),
            decreases self.n - k,
        {
            let step = self.random_step(src);
            sum = sum + step;
            values.push(sum);
            k = k + 1;
        }
        RandomWalk { values }
    }
}

} // verus!
