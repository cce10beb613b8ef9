//! Checked 128-bit arithmetic: products, truncating quotients and sums that
//! report overflow instead of wrapping.

use vstd::prelude::*;

verus! {

/// Whether `x` is representable as an `i128`.
pub open spec fn fits_i128(x: int) -> bool {
    i128::MIN <= x <= i128::MAX
}

/// The quotient of `a` by a positive `d`, rounded toward zero.
pub open spec fn trunc_div(a: int, d: int) -> int
    recommends
        d > 0,
{
    if a >= 0 {
        a / d
    } else {
        -((-a) / d)
    }
}

/// `a * b / d` rounded toward zero, or `None` when the product `a * b` does not
/// fit in an `i128`.
pub open spec fn mul_div(a: i128, b: i128, d: i128) -> Option<i128>
    recommends
        d > 0,
{
    if fits_i128(a * b) {
        Some(trunc_div(a * b, d as int) as i128)
    } else {
        None
    }
}

/// A truncated quotient is no larger in magnitude than its dividend.
pub proof fn lemma_trunc_div_bounds(a: int, d: int)
    requires
        d > 0,
    ensures
        a >= 0 ==> 0 <= trunc_div(a, d) <= a,
        a <= 0 ==> a <= trunc_div(a, d) <= 0,
{
    if a >= 0 {
        vstd::arithmetic::div_mod::lemma_div_pos_is_pos(a, d);
        vstd::arithmetic::div_mod::lemma_div_is_ordered_by_denominator(a, 1, d);
    } else {
        vstd::arithmetic::div_mod::lemma_div_pos_is_pos(-a, d);
        vstd::arithmetic::div_mod::lemma_div_is_ordered_by_denominator(-a, 1, d);
    }
}

/// Computes `a * b / d`, rounding toward zero; `None` when `a * b` overflows.
pub fn checked_mul_div(a: i128, b: i128, d: i128) -> (r: Option<i128>)
    requires
        d > 0,
    ensures
        r == mul_div(a, b, d),
{
    match a.checked_mul(b) {
        None => None,
        Some(p) => {
            proof {
                lemma_trunc_div_bounds(p as int, d as int);
            }
            let q = p / d;
            Some(q)
        },
    }
}

/// `start + delay`, or 0 when the sum does not fit in 64 bits.
pub open spec fn deadline(start: u64, delay: u64) -> u64 {
    if start + delay <= u64::MAX {
        (start + delay) as u64
    } else {
        0
    }
}

/// `start + delay`, or 0 when the sum does not fit in 64 bits.
pub fn deadline_after(start: u64, delay: u64) -> (r: u64)
    ensures
        r == deadline(start, delay),
{
    match start.checked_add(delay) {
        Some(t) => t,
        None => 0,
    }
}

} // verus!
