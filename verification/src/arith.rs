//! Saturating and exact fixed-point arithmetic helpers.
//!
//! Counters that can grow without bound over a long session (coins, pop
//! counts) saturate at their type's limit instead of overflowing; the spec
//! functions here give those operations their mathematical meaning.

use vstd::prelude::*;

verus! {

/// `x` capped at `u64::MAX`.
pub open spec fn cap_u64(x: int) -> int {
    if x > u64::MAX { u64::MAX as int } else { x }
}

/// `x` capped at `u32::MAX`.
pub open spec fn cap_u32(x: int) -> int {
    if x > u32::MAX { u32::MAX as int } else { x }
}

/// `x` floored at `i64::MIN`.
pub open spec fn floor_i64(x: int) -> int {
    if x < i64::MIN { i64::MIN as int } else { x }
}

/// Division by 1000 rounding toward zero, as the hardware divides.
pub open spec fn spec_div_milli(x: int) -> int {
    if x >= 0 { x / 1000 } else { -((-x) / 1000) }
}

/// Bounds on a product of two non-negative bounded factors.
pub proof fn lemma_mul_le(a: int, b: int, x: int, y: int)
    requires
        0 <= a <= x,
        0 <= b <= y,
    ensures
        0 <= a * b <= x * y,
{
    assert(0 <= a * b <= x * y) by (nonlinear_arith)
        requires
            0 <= a <= x,
            0 <= b <= y,
    ;
}

/// Bounds on a product whose first factor may be negative.
pub proof fn lemma_mul_signed_le(a: int, b: int, x: int, y: int)
    requires
        -x <= a <= x,
        0 <= x,
        0 <= b <= y,
    ensures
        -(x * y) <= a * b <= x * y,
{
    assert(-(x * y) <= a * b <= x * y) by (nonlinear_arith)
        requires
            -x <= a <= x,
            0 <= x,
            0 <= b <= y,
    ;
}

/// A value at most `1000 * b` in magnitude shrinks to at most `b` when
/// scaled down by a thousand.
pub proof fn lemma_div_milli_bound(x: int, b: int)
    requires
        0 <= b,
        -(1000 * b) <= x <= 1000 * b,
    ensures
        -b <= spec_div_milli(x) <= b,
{
    vstd::arithmetic::div_mod::lemma_div_multiples_vanish(b, 1000);
    if x >= 0 {
        vstd::arithmetic::div_mod::lemma_div_is_ordered(x, 1000 * b, 1000);
        vstd::arithmetic::div_mod::lemma_div_pos_is_pos(x, 1000);
    } else {
        vstd::arithmetic::div_mod::lemma_div_is_ordered(-x, 1000 * b, 1000);
        vstd::arithmetic::div_mod::lemma_div_pos_is_pos(-x, 1000);
    }
}

/// Saturating addition on `u64`.
pub fn sat_add_u64(a: u64, b: u64) -> (r: u64)
    ensures
        r == cap_u64(a + b),
{
    if a <= u64::MAX - b {
        a + b
    } else {
        u64::MAX
    }
}

/// Saturating increment on `u32`.
pub fn sat_inc_u32(a: u32) -> (r: u32)
    ensures
        r == cap_u32(a + 1),
{
    if a < u32::MAX {
        a + 1
    } else {
        a
    }
}

/// Saturating subtraction of a time delta from a signed timer.
pub fn sat_sub_i64(a: i64, b: u32) -> (r: i64)
    ensures
        r == floor_i64(a - b),
{
    let d = b as i64;
    if a >= i64::MIN + d {
        a - d
    } else {
        i64::MIN
    }
}

/// Saturating decrement on `i64`.
pub fn sat_dec_i64(a: i64) -> (r: i64)
    ensures
        r == floor_i64(a - 1),
{
    if a > i64::MIN {
        a - 1
    } else {
        a
    }
}

/// Half of a non-negative length.
pub fn half(x: i64) -> (r: i64)
    requires
        x >= 0,
    ensures
        r == x as int / 2,
{
    ((x as u64) / 2) as i64
}

/// Divides by 1000, rounding toward zero: scales a product of two
/// milli-scaled factors back to one milli scale.
pub fn div_milli(x: i64) -> (r: i64)
    requires
        x > i64::MIN,
    ensures
        r == spec_div_milli(x as int),
        0 <= r <= x || x <= r <= 0,
{
    if x >= 0 {
        ((x as u64) / 1000) as i64
    } else {
        let m = ((-x) as u64) / 1000;
        -(m as i64)
    }
}

} // verus!
