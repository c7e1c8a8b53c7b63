//! Exact non-negative rationals for real-valued simulation parameters.

use vstd::prelude::*;

verus! {

use crate::ParamError;

/// An exact non-negative rational `num / den`.
///
/// Time horizons, step sizes and rates are carried in this form so that the
/// step counts derived from them (`floor(n * t)`, `ceil(t / dt)`) are exact
/// integer computations.
#[derive(Clone, Copy, Debug, PartialEq, Eq, Structural)]
pub struct Ratio {
    pub num: u64,
    pub den: u64,
}

impl Ratio {
    /// The denominator is positive, so the ratio denotes a rational number.
    pub open spec fn wf(self) -> bool {
        self.den > 0
    }

    /// Builds `num / den`; a zero denominator is rejected.
    pub fn new(num: u64, den: u64) -> (r: Result<Ratio, ParamError>)
        ensures
            r is Ok <==> den > 0,
            r matches Ok(q) ==> q == (Ratio { num, den }) && q.wf(),
            r matches Err(e) ==> e == ParamError::InvalidRatio,
    {
        if den > 0 {
            Ok(Ratio { num, den })
        } else {
            Err(ParamError::InvalidRatio)
        }
    }
}

/// `floor(r * x)`, the number of whole times the rational `r` scales `x`.
///
/// A walk over the horizon `t` with `n` trials per unit of time runs for
/// `scale(n, t)` steps.
pub fn scale(x: u64, r: &Ratio) -> (y: u64)
    requires
        r.wf(),
        x * r.num / (r.den as int) <= u64::MAX,
    ensures
        y == x * r.num / (r.den as int),
{
    proof {
        assert(x * r.num <= u128::MAX) by (nonlinear_arith)
            requires
                x <= u64::MAX,
                r.num <= u64::MAX,
        ;
    }
    let wide: u128 = (x as u128) * (r.num as u128) / (r.den as u128);
    wide as u64
}

} // verus!
