//! Fixed-point arithmetic shared by the whole simulation.

use vstd::prelude::*;

verus! {

/// Sub-units in one world unit.
pub const UNIT: i64 = 1_000_000;

/// Microseconds in one second.
pub const MICROS_PER_SECOND: i64 = 1_000_000;

/// `x` moved to the nearest value of `[lo, hi]`.
pub open spec fn clamp(x: int, lo: int, hi: int) -> int {
    if x < lo {
        lo
    } else if x > hi {
        hi
    } else {
        x
    }
}

/// `x` moved to the nearest value a 64-bit signed integer can hold.
pub open spec fn saturated(x: int) -> int {
    clamp(x, i64::MIN as int, i64::MAX as int)
}

/// The quotient of `a` by a positive `b`, rounded toward zero.
pub open spec fn toward_zero(a: int, b: int) -> int {
    if a >= 0 {
        a / b
    } else {
        -((-a) / b)
    }
}

/// The distance covered in `delta` microseconds at `rate` sub-units per
/// second, rounded toward zero.
pub open spec fn travel(rate: int, delta: int) -> int {
    toward_zero(rate * delta, MICROS_PER_SECOND as int)
}

/// What `pull` whole units per second add up to in `delta` microseconds, in
/// sub-units: a speed gives a distance, and an acceleration a change of
/// velocity. Nothing is rounded.
pub open spec fn gain(pull: int, delta: int) -> int {
    pull * delta
}

proof fn lemma_product_bounds(a: int, b: int, la: int, ha: int, hb: int)
    by (nonlinear_arith)
    requires
        la <= a <= ha,
        0 <= b <= hb,
        la <= 0 <= ha,
    ensures
        la * hb <= a * b <= ha * hb,
{
}

/// Brings `x` into the 64-bit range.
pub fn saturate(x: i128) -> (r: i64)
    ensures
        r == saturated(x as int),
{
    if x < i64::MIN as i128 {
        i64::MIN
    } else if x > i64::MAX as i128 {
        i64::MAX
    } else {
        x as i64
    }
}

/// Computes [`travel`].
pub fn travelled(rate: i64, delta: u64) -> (d: i128)
    ensures
        d == travel(rate as int, delta as int),
        -0x8000_0000_0000_0000 * 0xffff_ffff_ffff_ffff <= d <= 0x7fff_ffff_ffff_ffff
            * 0xffff_ffff_ffff_ffff,
{
    proof {
        lemma_product_bounds(
            rate as int,
            delta as int,
            -0x8000_0000_0000_0000,
            0x7fff_ffff_ffff_ffff,
            0xffff_ffff_ffff_ffff,
        );
    }
    let product: i128 = (rate as i128) * (delta as i128);
    product / (MICROS_PER_SECOND as i128)
}

/// Computes [`gain`].
pub fn gained(pull: u32, delta: u64) -> (d: i128)
    ensures
        d == gain(pull as int, delta as int),
        0 <= d <= 0xffff_ffff * 0xffff_ffff_ffff_ffff,
{
    proof {
        lemma_product_bounds(pull as int, delta as int, 0, 0xffff_ffff, 0xffff_ffff_ffff_ffff);
    }
    (pull as i128) * (delta as i128)
}

} // verus!
