use vstd::arithmetic::div_mod::{lemma_div_is_ordered, lemma_div_multiples_vanish};
use vstd::arithmetic::mul::lemma_mul_inequality;
use vstd::prelude::*;

verus! {

/// The fixed-point value that stands for 1.0, both for samples and for gains.
pub const UNITY: u32 = 16777216;

/// Largest magnitude that a sample handed to [`scale`] may have.
pub const SCALE_LIMIT: i64 = 1099511627776;

pub open spec fn abs(x: int) -> int {
    if x >= 0 {
        x
    } else {
        -x
    }
}

/// `x * g`, where `g` is a fixed-point gain, rounded toward zero.
pub open spec fn scale_spec(x: int, g: int) -> int {
    if x >= 0 {
        x * g / (UNITY as int)
    } else {
        -((-x) * g / (UNITY as int))
    }
}

/// The nearest value to `x` in `-i32::MAX ..= i32::MAX`.
pub open spec fn saturate_spec(x: int) -> int {
    if x > i32::MAX {
        i32::MAX as int
    } else if x < -(i32::MAX as int) {
        -(i32::MAX as int)
    } else {
        x
    }
}

/// Multiplies `x` by the fixed-point gain `g`, rounding toward zero.
pub fn scale(x: i64, g: u32) -> (r: i64)
    requires
        -SCALE_LIMIT <= x <= SCALE_LIMIT,
    ensures
        r == scale_spec(x as int, g as int),
        abs(r as int) <= abs(x as int) * 256,
{
    let mag: u64 = if x >= 0 { x as u64 } else { (-x) as u64 };
    proof {
        assert(mag * (g as int) <= SCALE_LIMIT * 4294967296) by (nonlinear_arith)
            requires mag <= SCALE_LIMIT, g < 4294967296;
    }
    let prod: u128 = (mag as u128) * (g as u128);
    let q: u128 = prod / (UNITY as u128);
    proof {
        assert(q <= prod);
    }
    proof {
        lemma_scale_bound(x as int, g as int);
    }
    if x >= 0 {
        q as i64
    } else {
        -(q as i64)
    }
}

/// Clamps `x` to the symmetric range `-i32::MAX ..= i32::MAX`.
pub fn saturate(x: i64) -> (r: i32)
    ensures
        r == saturate_spec(x as int),
{
    if x > i32::MAX as i64 {
        i32::MAX
    } else if x < -(i32::MAX as i64) {
        -i32::MAX
    } else {
        x as i32
    }
}

/// Scaling by a gain below `2^32` grows a magnitude by less than a factor 256.
pub proof fn lemma_scale_bound(x: int, g: int)
    requires
        0 <= g < 4294967296,
    ensures
        abs(scale_spec(x, g)) <= abs(x) * 256,
        abs(scale_spec(x, g)) == scale_spec(abs(x), g),
{
    let m = abs(x);
    assert(m * g <= m * 4294967296) by (nonlinear_arith)
        requires 0 <= m, 0 <= g < 4294967296;
    assert(m * 4294967296 == (m * 256) * (UNITY as int)) by (nonlinear_arith);
    lemma_div_is_ordered(m * g, (m * 256) * (UNITY as int), UNITY as int);
    lemma_div_multiples_vanish(m * 256, UNITY as int);
    assert((UNITY as int) * (m * 256) == (m * 256) * (UNITY as int)) by (nonlinear_arith);
    assert(m * g >= 0) by (nonlinear_arith)
        requires 0 <= m, 0 <= g;
}

/// Scaling turns the sign of its argument over with it.
pub proof fn lemma_scale_odd(x: int, g: int)
    ensures
        scale_spec(-x, g) == -scale_spec(x, g),
{
    if x == 0 {
        assert(0 * g == 0);
    }
}

/// Scaling a non-negative value keeps the order of values and of gains.
pub proof fn lemma_scale_monotone(a: int, b: int, g: int, h: int)
    requires
        0 <= a <= b,
        0 <= g <= h,
    ensures
        0 <= scale_spec(a, g) <= scale_spec(b, h),
{
    lemma_mul_inequality(a, b, g);
    assert(b * g <= b * h) by (nonlinear_arith)
        requires 0 <= b, g <= h;
    assert(0 <= a * g) by (nonlinear_arith)
        requires 0 <= a, 0 <= g;
    lemma_div_is_ordered(a * g, b * h, UNITY as int);
    lemma_div_is_ordered(0, a * g, UNITY as int);
}

/// Scaling by [`UNITY`] leaves a value as it is.
pub proof fn lemma_scale_unity(x: int)
    ensures
        scale_spec(x, UNITY as int) == x,
{
    let m = abs(x);
    lemma_div_multiples_vanish(m, UNITY as int);
    assert((UNITY as int) * m == m * (UNITY as int)) by (nonlinear_arith);
}

} // verus!
