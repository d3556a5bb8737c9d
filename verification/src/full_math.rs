//! Full-width multiply-then-divide.
//!
//! Every reward allocation multiplies before it divides, and the intermediate
//! product of two 64-bit operands needs 128 bits. The quotient is floored: the
//! engine never rounds up, so it never distributes more than was funded.

use vstd::prelude::*;

verus! {

/// Computes `floor(a * b / denominator)` with a full-width (128-bit)
/// intermediate product.
///
/// Returns `None` when the denominator is zero or the quotient does not fit
/// in a `u64`.
pub fn mul_div_floor(a: u64, b: u64, denominator: u64) -> (r: Option<u64>)
    ensures
        match r {
            Some(v) => denominator > 0 && v == a * b / (denominator as int),
            None => denominator == 0 || a * b / (denominator as int) > u64::MAX,
        },
{
    if denominator == 0 {
        return None;
    }
    proof {
        assert((a as int) * (b as int) <= (u64::MAX as int) * (u64::MAX as int))
            by (nonlinear_arith)
            requires
                a <= u64::MAX,
                b <= u64::MAX,
        ;
    }
    let product: u128 = (a as u128) * (b as u128);
    let quotient: u128 = product / (denominator as u128);
    if quotient > u64::MAX as u128 {
        None
    } else {
        Some(quotient as u64)
    }
}

} // verus!
