//! Saturating fixed-point arithmetic shared by the physics code.
//!
//! World space is measured in sub-pixels (`SUBPIXELS` per pixel) and time in
//! milliseconds, so integrating a speed `q` (sub-pixels per second) over an
//! elapsed time `dt` (milliseconds) is `q * dt / 1000`, truncated toward
//! zero. Every operation saturates at the `i64` range, which keeps each
//! update total.

use vstd::prelude::*;

verus! {

/// Sub-pixels per world pixel; also the milliseconds in a second, the
/// divisor of every speed-times-time product.
pub const SUBPIXELS: i64 = 1000;

/// `x` pulled into the `i64` range.
pub open spec fn sat64(x: int) -> int {
    if x > i64::MAX as int {
        i64::MAX as int
    } else if x < i64::MIN as int {
        i64::MIN as int
    } else {
        x
    }
}

/// Division by 1000 truncated toward zero, the integer image of a
/// float-to-int cast of `x / 1000.0`.
pub open spec fn tdiv1000(x: int) -> int {
    if x >= 0 {
        x / 1000
    } else {
        -((-x) / 1000)
    }
}

/// `lo` if `x < lo`, `hi` if `x > hi`, else `x`.
pub open spec fn clamp_spec(x: int, lo: int, hi: int) -> int {
    if x < lo {
        lo
    } else if x > hi {
        hi
    } else {
        x
    }
}

/// The whole-pixel image of a sub-pixel coordinate: division by 1000
/// truncated toward zero, then clamped into the `i32` range. This is the
/// integer image of casting a float pixel coordinate to `i32`.
pub open spec fn px(v: int) -> int {
    clamp_spec(tdiv1000(v), i32::MIN as int, i32::MAX as int)
}

/// Converts a sub-pixel coordinate to whole pixels.
pub fn to_px(v: i64) -> (r: i64)
    ensures
        r == px(v as int),
        i32::MIN <= r <= i32::MAX,
{
    if v >= 0 {
        let q: u128 = (v as u128) / 1000;
        proof {
            vstd::arithmetic::div_mod::lemma_div_nonincreasing(v as int, 1000);
        }
        if q > i32::MAX as u128 {
            i32::MAX as i64
        } else {
            q as i64
        }
    } else {
        let m: u128 = ((-(v as i128)) as u128) / 1000;
        proof {
            vstd::arithmetic::div_mod::lemma_div_nonincreasing(-(v as int), 1000);
        }
        if m > 2_147_483_648u128 {
            i32::MIN as i64
        } else {
            -(m as i64)
        }
    }
}

/// Saturating addition.
pub fn sat_add(a: i64, b: i64) -> (r: i64)
    ensures
        r as int == sat64(a + b),
{
    if b >= 0 {
        if a > i64::MAX - b {
            i64::MAX
        } else {
            a + b
        }
    } else {
        if a < i64::MIN - b {
            i64::MIN
        } else {
            a + b
        }
    }
}

/// Saturating subtraction.
pub fn sat_sub(a: i64, b: i64) -> (r: i64)
    ensures
        r as int == sat64(a - b),
{
    if b >= 0 {
        if a < i64::MIN + b {
            i64::MIN
        } else {
            a - b
        }
    } else {
        if a > i64::MAX + b {
            i64::MAX
        } else {
            a - b
        }
    }
}

/// Saturating multiplication.
pub fn sat_mul(a: i64, b: i64) -> (r: i64)
    ensures
        r as int == sat64(a * b),
{
    let ai: i128 = a as i128;
    let bi: i128 = b as i128;
    proof {
        assert(-0x8000_0000_0000_0000_0000_0000_0000_0000 <= ai * bi
            && ai * bi < 0x8000_0000_0000_0000_0000_0000_0000_0000) by (nonlinear_arith)
            requires
                -0x8000_0000_0000_0000 <= ai <= 0x7fff_ffff_ffff_ffff,
                -0x8000_0000_0000_0000 <= bi <= 0x7fff_ffff_ffff_ffff,
        ;
    }
    let p: i128 = ai * bi;
    if p > i64::MAX as i128 {
        i64::MAX
    } else if p < i64::MIN as i128 {
        i64::MIN
    } else {
        p as i64
    }
}

/// Clamps `x` into `[lo, hi]`.
pub fn clamp64(x: i64, lo: i64, hi: i64) -> (r: i64)
    requires
        lo <= hi,
    ensures
        r as int == clamp_spec(x as int, lo as int, hi as int),
{
    if x < lo {
        lo
    } else if x > hi {
        hi
    } else {
        x
    }
}

/// `base + q * dt / 1000`, saturated: one integration step of the speed `q`
/// over `dt` milliseconds added onto `base`.
pub fn add_scaled(base: i64, q: i64, dt: i64) -> (r: i64)
    requires
        0 <= dt,
    ensures
        r as int == sat64(base + tdiv1000(q * dt)),
{
    if q >= 0 {
        let qu: u128 = q as u128;
        let du: u128 = dt as u128;
        proof {
            assert(qu * du < 0x4000_0000_0000_0000_0000_0000_0000_0000) by (nonlinear_arith)
                requires
                    qu < 0x8000_0000_0000_0000,
                    du < 0x8000_0000_0000_0000,
            ;
        }
        let prod: u128 = qu * du;
        let m: u128 = prod / 1000;
        proof {
            vstd::arithmetic::div_mod::lemma_div_nonincreasing(prod as int, 1000);
            assert(m == tdiv1000(q * dt));
        }
        let s: i128 = (base as i128) + (m as i128);
        if s > i64::MAX as i128 {
            i64::MAX
        } else if s < i64::MIN as i128 {
            i64::MIN
        } else {
            s as i64
        }
    } else {
        let qm: u128 = (-(q as i128)) as u128;
        let du: u128 = dt as u128;
        proof {
            assert(qm * du <= 0x4000_0000_0000_0000_0000_0000_0000_0000) by (nonlinear_arith)
                requires
                    qm <= 0x8000_0000_0000_0000,
                    du < 0x8000_0000_0000_0000,
            ;
        }
        let prod: u128 = qm * du;
        let mag: u128 = prod / 1000;
        proof {
            vstd::arithmetic::div_mod::lemma_div_nonincreasing(prod as int, 1000);
            assert(prod == -(q * dt)) by (nonlinear_arith)
                requires
                    prod == qm * du,
                    qm == -(q as int),
                    du == dt as int,
            ;
            assert(mag == (-(q * dt)) / 1000);
            assert(tdiv1000(q * dt) == -(mag as int));
        }
        let s: i128 = (base as i128) - (mag as i128);
        if s > i64::MAX as i128 {
            i64::MAX
        } else if s < i64::MIN as i128 {
            i64::MIN
        } else {
            s as i64
        }
    }
}

} // verus!
