//! Fixed-point scalars: plain `i64` values with saturating arithmetic.

use vstd::prelude::*;

verus! {

/// Length units per pixel: a length of one pixel is written `1000`.
pub const UNITS_PER_PIXEL: i64 = 1000;

/// Clock units per time unit: a duration of one time unit is written `1000`.
pub const CLOCK_UNITS_PER_TIME_UNIT: u64 = 1000;

/// The `i64` nearest to the integer `v`.
pub open spec fn saturate(v: int) -> i64 {
    if v < i64::MIN {
        i64::MIN
    } else if v > i64::MAX {
        i64::MAX
    } else {
        v as i64
    }
}

/// The `u64` nearest to the non-negative integer `v`.
pub open spec fn saturate_u64(v: int) -> u64 {
    if v > u64::MAX {
        u64::MAX
    } else if v < 0 {
        0
    } else {
        v as u64
    }
}

/// Brings a wide intermediate result back into `i64`.
pub fn narrow(wide: i128) -> (r: i64)
    ensures
        r == saturate(wide as int),
{
    if wide < i64::MIN as i128 {
        i64::MIN
    } else if wide > i64::MAX as i128 {
        i64::MAX
    } else {
        wide as i64
    }
}

/// Saturating sum.
pub fn sat_add(a: i64, b: i64) -> (r: i64)
    ensures
        r == saturate(a + b),
{
    narrow(a as i128 + b as i128)
}

/// Saturating difference.
pub fn sat_sub(a: i64, b: i64) -> (r: i64)
    ensures
        r == saturate(a - b),
{
    narrow(a as i128 - b as i128)
}

/// The product of an `i64` and a value between `i64::MIN` and `u64::MAX` fits
/// in an `i128`.
pub proof fn lemma_product_fits(a: int, b: int)
    requires
        i64::MIN <= a <= i64::MAX,
        i64::MIN <= b <= u64::MAX,
    ensures
        i128::MIN < a * b < i128::MAX,
{
    let m: int = 0x8000_0000_0000_0000;
    let aa: int = if a < 0 { -a } else { a };
    let bb: int = if b < 0 { -b } else { b };
    assert(aa * bb <= m * (2 * m - 1)) by (nonlinear_arith)
        requires
            0 <= aa <= m,
            0 <= bb <= 2 * m - 1,
    ;
    assert(m * (2 * m - 1) < i128::MAX) by (nonlinear_arith)
        requires
            m == 0x8000_0000_0000_0000,
    ;
    assert(a * b == aa * bb || a * b == -(aa * bb)) by (nonlinear_arith)
        requires
            aa == a || aa == -a,
            bb == b || bb == -b,
    ;
}

/// Saturating product.
pub fn sat_mul(a: i64, b: i64) -> (r: i64)
    ensures
        r == saturate(a * b),
{
    proof {
        lemma_product_fits(a as int, b as int);
    }
    narrow(a as i128 * b as i128)
}

/// Saturating product of a count and a length.
pub fn sat_scale(count: usize, length: i64) -> (r: i64)
    ensures
        r == saturate(count * length),
{
    proof {
        lemma_product_fits(length as int, count as int);
        assert(count * length == length * count) by (nonlinear_arith);
    }
    narrow(count as i128 * length as i128)
}

/// Saturating increment of a counter.
pub fn sat_inc(n: u64) -> (r: u64)
    ensures
        r == saturate_u64(n + 1),
{
    if n == u64::MAX {
        n
    } else {
        n + 1
    }
}

} // verus!
