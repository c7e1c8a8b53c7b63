//! Fixed-point arithmetic for real-valued path values.
//!
//! The diffusive and Euler-Maruyama simulators produce real-valued paths.
//! The library carries such values in micro-units: the integer `v` stands
//! for the real number `v / SCALE`. Every update rule is then exact integer
//! arithmetic, saturating at the bounds of `i64` instead of failing.

use vstd::prelude::*;

verus! {

/// Number of fixed-point micro-units in one whole unit.
pub const SCALE: u64 = 1_000_000;

/// Quotient rounded toward zero, the rounding used for scaled path values.
pub open spec fn div_toward_zero(a: int, b: int) -> int {
    if a >= 0 {
        a / b
    } else {
        -((-a) / b)
    }
}

/// `x` clamped to the range of `i64`.
pub open spec fn clamp64(x: int) -> int {
    if x > i64::MAX {
        i64::MAX as int
    } else if x < i64::MIN {
        i64::MIN as int
    } else {
        x
    }
}

/// The integer square root: the largest `r` with `r * r <= x`.
pub fn isqrt(x: u128) -> (r: u64)
    ensures
        (r as int) * (r as int) <= x,
        x < (r as int + 1) * (r as int + 1),
{
    let mut lo: u128 = 0;
    let mut hi: u128 = 0x1_0000_0000_0000_0000;
    proof {
        assert(x < 0x1_0000_0000_0000_0000int * 0x1_0000_0000_0000_0000int) by (nonlinear_arith)
            requires
                x <= u128::MAX,
        ;
    }
    while lo + 1 < hi
        invariant
            lo < hi <= 0x1_0000_0000_0000_0000,
            (lo as int) * (lo as int) <= x,
            x < (hi as int) * (hi as int),
        decreases hi - lo,
    {
        let mid = lo + (hi - lo) / 2;
        proof {
            assert(lo < mid < hi) by (nonlinear_arith)
                requires
                    lo + 1 < hi,
                    mid == lo + (hi - lo) / 2,
            ;
            assert(mid * mid <= u128::MAX) by (nonlinear_arith)
                requires
                    mid <= 0xffff_ffff_ffff_ffffu128,
            ;
        }
        if mid * mid <= x {
            lo = mid;
        } else {
            hi = mid;
        }
    }
    lo as u64
}

/// Scales the cumulative sum `sum` into micro-units of `sum / (sf / SCALE)`:
/// the fixed-point value of `sum * SCALE / sf`, rounded toward zero.
pub fn scaled_div(sum: i64, sf: u64) -> (r: i64)
    requires
        sf >= 1,
        -0x7fff_ffff <= sum <= 0x7fff_ffff,
    ensures
        r == div_toward_zero(sum * SCALE, sf as int),
{
    let mag: u64 = if sum >= 0 {
        sum as u64
    } else {
        (-sum) as u64
    };
    let scaled: u64 = mag * SCALE;
    let q: u64 = scaled / sf;
    proof {
        assert(q <= scaled) by (nonlinear_arith)
            requires
                sf >= 1,
                q == scaled as int / sf as int,
                scaled >= 0,
        ;
    }
    if sum >= 0 {
        q as i64
    } else {
        -(q as i64)
    }
}

/// Addition saturating at the bounds of `i64`.
pub fn sat_add(a: i64, b: i64) -> (r: i64)
    ensures
        r == clamp64(a + b),
{
    let wide: i128 = a as i128 + b as i128;
    if wide > i64::MAX as i128 {
        i64::MAX
    } else if wide < i64::MIN as i128 {
        i64::MIN
    } else {
        wide as i64
    }
}

} // verus!
