//! The stochastic-process capability and the Euler-Maruyama integrator.
//!
//! Any source of "the next value of a stochastic sequence" satisfies the
//! [`StochasticProcess`] contract: stateless distributions draw independently
//! on every call, stateful processes carry memory between calls. The
//! integrator is generic over the contract, so one verified driver composes
//! with every process. Path values and coefficients are fixed-point
//! micro-units ([`SCALE`]).

use vstd::prelude::*;

verus! {

use crate::ParamError;
use crate::distribution::Rademacher;
use crate::fixed::{SCALE, clamp64, div_toward_zero, sat_add};
use crate::ratio::Ratio;
use crate::rng::RandomSource;
use vstd::math::abs;

/// The diffusion contribution of one step: `diffusion * w` in micro-units,
/// rounded toward zero.
pub open spec fn diffusion_term(diffusion: int, w: int) -> int {
    div_toward_zero(diffusion * w, SCALE as int)
}

/// One Euler-Maruyama update: `prev + drift + diffusion * w`, saturating at
/// the bounds of `i64`.
pub open spec fn em_step(prev: int, drift: int, diffusion: int, w: int) -> int {
    clamp64(prev + drift + diffusion_term(diffusion, w))
}

/// The path follows the Euler-Maruyama update rule: `ws` lists the process
/// value drawn for each step, and every path value is `em_step` of its
/// predecessor with that draw.
pub open spec fn follows_em_rule(path: Seq<i64>, drift: int, diffusion: int, ws: Seq<int>) -> bool {
    &&& ws.len() + 1 == path.len()
    &&& forall|i: int|
        1 <= i < path.len() ==> #[trigger] path[i] == em_step(
            path[i - 1] as int,
            drift,
            diffusion,
            ws[i - 1],
        )
}

/// A memory-capable stochastic process.
///
/// `next` draws the next value of the sequence from the given random source
/// and may update internal state; `inv` is the state invariant that every
/// draw preserves.
pub trait StochasticProcess: Sized {
    /// The invariant of the process state.
    spec fn inv(&self) -> bool;

    /// Draws the next value of the process, in micro-units.
    fn next(&mut self, src: &mut RandomSource) -> (w: i64)
        requires
            old(self).inv(),
        ensures
            final(self).inv(),
    ;
}

/// A Rademacher variable is a stateless process: every draw is an
/// independent step of exactly +SCALE or -SCALE.
impl StochasticProcess for Rademacher {
    open spec fn inv(&self) -> bool {
        self.wf()
    }

    fn next(&mut self, src: &mut RandomSource) -> (w: i64)
        ensures
            w == SCALE as i64 || w == -(SCALE as i64),
    {
        let s = self.sample(src);
        if s == 1 {
            SCALE as i64
        } else {
            -(SCALE as i64)
        }
    }
}

/// The state of a Wiener process: the accumulated value of its increments.
///
/// The Gaussian increments themselves are drawn by the caller that owns the
/// distribution; this type carries the process memory, starting at zero.
#[derive(Clone, Copy, Debug)]
pub struct WienerProcess {
    /// Current accumulated value, in micro-units.
    pub current: i64,
}

impl WienerProcess {
    /// A process starting at zero.
    pub fn new() -> (r: WienerProcess)
        ensures
            r.current == 0,
    {
        WienerProcess { current: 0 }
    }

    /// Adds one increment to the running value and returns the new total,
    /// saturating at the bounds of `i64`.
    pub fn advance(&mut self, dw: i64) -> (r: i64)
        ensures
            final(self).current == clamp64(old(self).current + dw),
            r == final(self).current,
    {
        self.current = sat_add(self.current, dw);
        self.current
    }
}

/// An immutable Euler-Maruyama sample path, in micro-units.
pub struct Simulation {
    values: Vec<i64>,
}

impl View for Simulation {
    type V = Seq<i64>;

    closed spec fn view(&self) -> Seq<i64> {
        self.values@
    }
}

impl Simulation {
    /// The ordered path values, in micro-units.
    pub fn values(&self) -> (v: &Vec<i64>)
        ensures
            v@ == self@,
    {
        &self.values
    }

    /// The last path value, or zero when the path is empty.
    pub fn final_value(&self) -> (r: i64)
        ensures
            r == if self@.len() == 0 { 0int } else { self@[self@.len() - 1] as int },
    {
        if self.values.len() == 0 {
            0
        } else {
            self.values[self.values.len() - 1]
        }
    }
}

/// The number of discretization steps: `ceil(t / dt)`.
pub open spec fn step_count_of(t: Ratio, dt: Ratio) -> int {
    (t.num * dt.den + t.den * dt.num - 1) / (t.den * dt.num)
}

/// One Euler-Maruyama path update computed from a drawn process value:
/// exactly `prev + drift + diffusion * w` in saturating fixed point.
pub fn em_update(prev: i64, drift: i64, diffusion: i64, w: i64) -> (r: i64)
    ensures
        r == em_step(prev as int, drift as int, diffusion as int, w as int),
{
    let dm: u128 = if diffusion >= 0 {
        diffusion as u128
    } else {
        (-(diffusion as i128)) as u128
    };
    let wm: u128 = if w >= 0 {
        w as u128
    } else {
        (-(w as i128)) as u128
    };
    proof {
        assert(dm * wm <= u128::MAX) by (nonlinear_arith)
            requires
                dm <= 0x8000_0000_0000_0000u128,
                wm <= 0x8000_0000_0000_0000u128,
        ;
    }
    let prod: u128 = dm * wm;
    let tm: u128 = prod / (SCALE as u128);
    proof {
        assert(tm <= prod) by (nonlinear_arith)
            requires
                prod >= 0,
                tm == prod as int / 1_000_000int,
        ;
    }
    let negative = (diffusion < 0) != (w < 0);
    let term: i128 = if negative {
        -(tm as i128)
    } else {
        tm as i128
    };
    proof {
        assert((diffusion as int) * (w as int) == if negative {
            -((dm as int) * (wm as int))
        } else {
            (dm as int) * (wm as int)
        }) by (nonlinear_arith)
            requires
                dm == if diffusion >= 0 {
                    diffusion as int
                } else {
                    -(diffusion as int)
                },
                wm == if w >= 0 {
                    w as int
                } else {
                    -(w as int)
                },
                negative == ((diffusion < 0) != (w < 0)),
        ;
        assert(term == diffusion_term(diffusion as int, w as int));
    }
    let wide: i128 = prev as i128 + drift as i128 + term;
    if wide > i64::MAX as i128 {
        i64::MAX
    } else if wide < i64::MIN as i128 {
        i64::MIN
    } else {
        wide as i64
    }
}

/// Integrates a stochastic differential equation
/// `dX = drift dt + diffusion dW` with the Euler-Maruyama scheme.
///
/// The driver is generic over the process supplying the `dW` draws and owns
/// that process for the duration of the run. The step rule is deliberately
/// literal: `drift` is added as a flat increment per step, not `drift * dt`,
/// and `diffusion` multiplies the process value directly.
#[derive(Debug)]
pub struct EulerMaruyamaSimulator<S: StochasticProcess> {
    /// The process supplying one value per step.
    pub process: S,
    /// Drift added to the path once per step, in micro-units.
    pub drift: i64,
    /// Diffusion factor applied to each process value, in micro-units.
    pub diffusion: i64,
    /// Step size.
    pub dt: Ratio,
    /// Full time period.
    pub t: Ratio,
}

impl<S: StochasticProcess> EulerMaruyamaSimulator<S> {
    /// The configuration is validated and the process invariant holds.
    pub open spec fn wf(self) -> bool {
        &&& self.t.wf()
        &&& self.dt.wf()
        &&& self.dt.num > 0
        &&& 1 <= step_count_of(self.t, self.dt) <= 0x7fff_ffff
        &&& self.process.inv()
    }

    /// Assembles a simulator after validating the configuration: the step
    /// size must be positive and the derived step count at least one and
    /// representable.
    pub fn new(process: S, drift: i64, diffusion: i64, dt: Ratio, t: Ratio) -> (r: Result<
        Self,
        ParamError,
    >)
        requires
            process.inv(),
        ensures
            r is Ok <==> (t.den > 0 && dt.den > 0 && dt.num > 0 && 1 <= step_count_of(t, dt)
                <= 0x7fff_ffff),
            r matches Ok(s) ==> s.process == process && s.drift == drift && s.diffusion == diffusion
                && s.dt == dt && s.t == t && s.wf(),
            r matches Err(e) ==> e == if t.den == 0 || dt.den == 0 {
                ParamError::InvalidRatio
            } else if dt.num == 0 {
                ParamError::ZeroStepSize
            } else if step_count_of(t, dt) < 1 {
                ParamError::ZeroSteps
            } else {
                ParamError::CapacityExceeded
            },
    {
        if t.den == 0 || dt.den == 0 {
            return Err(ParamError::InvalidRatio);
        }
        if dt.num == 0 {
            return Err(ParamError::ZeroStepSize);
        }
        let steps = ceil_steps(&t, &dt);
        if steps < 1 {
            return Err(ParamError::ZeroSteps);
        }
        if steps > 0x7fff_ffff {
            return Err(ParamError::CapacityExceeded);
        }
        Ok(EulerMaruyamaSimulator { process, drift, diffusion, dt, t })
    }

    /// The number of steps of one run: `ceil(t / dt)`.
    pub fn n(&self) -> (r: usize)
        requires
            self.wf(),
        ensures
            r == step_count_of(self.t, self.dt),
    {
        let steps = ceil_steps(&self.t, &self.dt);
        steps as usize
    }

    /// One step of the scheme: draws the next process value `w` and computes
    /// `prev + drift + diffusion * w`. With zero diffusion the draw cannot
    /// influence the result, so the step is exactly `prev + drift`,
    /// saturating at the bounds of `i64`.
    pub fn step(&mut self, prev: i64, src: &mut RandomSource) -> (r: i64)
        requires
            old(self).process.inv(),
        ensures
            final(self).drift == old(self).drift,
            final(self).diffusion == old(self).diffusion,
            final(self).dt == old(self).dt,
            final(self).t == old(self).t,
            final(self).process.inv(),
            exists|w: int|
                r == #[trigger] em_step(
                    prev as int,
                    old(self).drift as int,
                    old(self).diffusion as int,
                    w,
                ),
            old(self).diffusion == 0 ==> r == clamp64(prev + old(self).drift),
    {
        let w = self.process.next(src);
        proof {
            if self.diffusion == 0 {
                assert(0int * (w as int) == 0) by (nonlinear_arith);
                assert(0int / (SCALE as int) == 0) by (nonlinear_arith)
                    requires
                        SCALE == 1_000_000u64,
                ;
            }
        }
        let r = em_update(prev, self.drift, self.diffusion, w);
        proof {
            assert(r == em_step(prev as int, self.drift as int, self.diffusion as int, w as int));
        }
        r
    }

    /// Generates one sample path of exactly `ceil(t / dt)` values.
    ///
    /// The path always starts at zero. With zero diffusion the process draws
    /// cannot influence the path, so as long as `(n - 1) * |drift|` stays
    /// representable the value after `i` steps is exactly `i * drift`.
    pub fn run(&mut self, src: &mut RandomSource) -> (sim: Simulation)
        requires
            old(self).wf(),
        ensures
            final(self).drift == old(self).drift,
            final(self).diffusion == old(self).diffusion,
            final(self).dt == old(self).dt,
            final(self).t == old(self).t,
            final(self).process.inv(),
            sim@.len() == step_count_of(old(self).t, old(self).dt),
            sim@[0] == 0,
            exists|ws: Seq<int>|
                follows_em_rule(sim@, old(self).drift as int, old(self).diffusion as int, ws),
            (old(self).diffusion == 0 && (step_count_of(old(self).t, old(self).dt) - 1) * abs(
                old(self).drift as int,
            ) <= i64::MAX) ==> forall|i: int|
                0 <= i < sim@.len() ==> #[trigger] sim@[i] == i * old(self).drift,
    {
        let drift = self.drift;
        let diffusion = self.diffusion;
        let ghost t0 = self.t;
        let ghost dt0 = self.dt;
        let n_steps = self.n();
        let mut values: Vec<i64> = Vec::new();
        values.push(0);
        proof {
            assert(0int * (drift as int) == 0) by (nonlinear_arith);
        }
        let ghost mut ws: Seq<int> = Seq::empty();
        let mut k: usize = 1;
        while k < n_steps
            invariant
                self.drift == drift,
                self.diffusion == diffusion,
                self.t == t0,
                self.dt == dt0,
                self.process.inv(),
                1 <= k <= n_steps,
                n_steps <= 0x7fff_ffff,
                values@.len() == k,
                values@[0] == 0,
                ws.len() + 1 == k,
                forall|i: int|
                    1 <= i < k ==> #[trigger] values@[i] == em_step(
                        values@[i - 1] as int,
                        drift as int,
                        diffusion as int,
                        ws[i - 1],
                    ),
                (diffusion == 0 && (n_steps - 1) * abs(drift as int) <= i64::MAX) ==> forall|
                    i: int,
                |
                    0 <= i < k ==> #[trigger] values@[i] == i * drift,
            decreases n_steps - k,
        {
            let prev = values[k - 1];
            let v = self.step(prev, src);
            proof {
                if diffusion == 0 && (n_steps - 1) * abs(drift as int) <= i64::MAX {
                    assert(-(i64::MAX as int) <= k * (drift as int) <= i64::MAX) by (
                    nonlinear_arith)
                        requires
                            1 <= k <= n_steps - 1,
                            0 <= abs(drift as int),
                            drift as int <= abs(drift as int),
                            -abs(drift as int) <= drift as int,
                            (n_steps - 1) * abs(drift as int) <= i64::MAX,
                    ;
                    assert((k - 1) * (drift as int) + drift == k * (drift as int)) by (
                    nonlinear_arith);
                    assert(values@[k - 1] == (k - 1) * (drift as int));
                    assert(v == k * (drift as int));
                }
            }
            values.push(v);
            proof {
                let wi = choose|w: int|
                    v == #[trigger] em_step(prev as int, drift as int, diffusion as int, w);
                ws = ws.push(wi);
            }
            k = k + 1;
        }
        let res = Simulation { values };
        proof {
            assert(follows_em_rule(res@, old(self).drift as int, old(self).diffusion as int, ws));
        }
        res
    }
}

/// `ceil(t / dt)` computed exactly on the rational parameters.
fn ceil_steps(t: &Ratio, dt: &Ratio) -> (r: u128)
    requires
        t.wf(),
        dt.wf(),
        dt.num > 0,
    ensures
        r == step_count_of(*t, *dt),
{
    proof {
        assert(t.num * dt.den <= u128::MAX && 1 <= t.den * dt.num <= u128::MAX) by (
        nonlinear_arith)
            requires
                t.num <= u64::MAX,
                dt.den <= u64::MAX,
                1 <= t.den <= u64::MAX,
                1 <= dt.num <= u64::MAX,
        ;
    }
    let a: u128 = (t.num as u128) * (dt.den as u128);
    let b: u128 = (t.den as u128) * (dt.num as u128);
    if a == 0 {
        proof {
            assert((0int + b - 1) / (b as int) == 0) by (nonlinear_arith)
                requires
                    b >= 1,
            ;
        }
        0
    } else {
        let q: u128 = (a - 1) / b + 1;
        proof {
            assert((a + b - 1) / (b as int) == (a - 1) / (b as int) + 1) by (nonlinear_arith)
                requires
                    a >= 1,
                    b >= 1,
            ;
            assert(q <= a) by (nonlinear_arith)
                requires
                    a >= 1,
                    b >= 1,
                    q == (a - 1) / (b as int) + 1,
            ;
        }
        q
    }
}

} // verus!
