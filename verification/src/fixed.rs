//! Saturating fixed-point arithmetic on `i64`.
//!
//! Every operation computes its exact mathematical result in a wider type
//! and then clamps it into the range of `i64`, so none of them can overflow
//! and each is exact whenever the true result fits.

use vstd::prelude::*;

verus! {

/// Steps of length in one world unit.
pub const UNIT: i64 = 1_000_000;

/// The fixed-point factor that stands for one: a factor `f` multiplies by
/// `f / FACTOR_ONE`.
pub const FACTOR_ONE: i64 = 1_000_000;

/// The value of `i64` nearest to `v`.
pub open spec fn clamp(v: int) -> i64 {
    if v < i64::MIN as int {
        i64::MIN
    } else if v > i64::MAX as int {
        i64::MAX
    } else {
        v as i64
    }
}

/// `a + b`, clamped.
pub open spec fn added(a: i64, b: i64) -> i64 {
    clamp(a + b)
}

/// `to - from`, clamped.
pub open spec fn elapsed(from: i64, to: i64) -> i64 {
    clamp(to - from)
}

/// Where a body at `p` with speed `v` stands after `dt` milliseconds:
/// `p + v * dt`, clamped.
pub open spec fn advanced(p: i64, v: i64, dt: i64) -> i64 {
    clamp(p + v * dt)
}

/// `a / b` rounded toward zero, for a positive `b`.
pub open spec fn quotient(a: int, b: int) -> int {
    if a >= 0 {
        a / b
    } else {
        -((-a) / b)
    }
}

/// `len` multiplied by the fixed-point factor `factor`, rounded toward zero
/// and clamped.
pub open spec fn scaled(len: i64, factor: i64) -> i64 {
    clamp(quotient(len * factor, FACTOR_ONE as int))
}

/// The product of two `i64` values keeps well inside `i128`.
proof fn lemma_product_bound(a: i64, b: i64)
    ensures
        -0x4000_0000_0000_0000_0000_0000_0000_0000 <= a * b
            <= 0x4000_0000_0000_0000_0000_0000_0000_0000,
{
    assert(-0x4000_0000_0000_0000_0000_0000_0000_0000 <= a * b
        <= 0x4000_0000_0000_0000_0000_0000_0000_0000) by (nonlinear_arith)
        requires
            -0x8000_0000_0000_0000 <= a <= 0x8000_0000_0000_0000,
            -0x8000_0000_0000_0000 <= b <= 0x8000_0000_0000_0000,
    ;
}

/// Clamps a wide value into `i64`.
pub fn saturate(v: i128) -> (r: i64)
    ensures
        r == clamp(v as int),
{
    if v < i64::MIN as i128 {
        i64::MIN
    } else if v > i64::MAX as i128 {
        i64::MAX
    } else {
        v as i64
    }
}

/// Saturating sum of two values.
pub fn sum(a: i64, b: i64) -> (r: i64)
    ensures
        r == added(a, b),
{
    saturate(a as i128 + b as i128)
}

/// Saturating difference `to - from`.
pub fn span(from: i64, to: i64) -> (r: i64)
    ensures
        r == elapsed(from, to),
{
    saturate(to as i128 - from as i128)
}

/// Moves `p` by `v * dt`, saturating.
pub fn advance(p: i64, v: i64, dt: i64) -> (r: i64)
    ensures
        r == advanced(p, v, dt),
{
    proof {
        lemma_product_bound(v, dt);
    }
    saturate(p as i128 + (v as i128) * (dt as i128))
}

/// Multiplies `len` by the fixed-point factor `factor`, rounding toward zero
/// and saturating.
pub fn scale(len: i64, factor: i64) -> (r: i64)
    ensures
        r == scaled(len, factor),
{
    proof {
        lemma_product_bound(len, factor);
    }
    let product: i128 = (len as i128) * (factor as i128);
    saturate(product / (FACTOR_ONE as i128))
}

} // verus!
