//! Scaled integer quotients, the arithmetic behind every rate and percentage.

use vstd::prelude::*;

verus! {

/// The floor of `num * scale / den`, and `0` where `den` is `0`.
pub open spec fn scaled_quotient(num: nat, scale: nat, den: nat) -> nat {
    if den == 0 {
        0
    } else {
        (num * scale) / den
    }
}

/// `x` where it fits in a `u64`, and `u64::MAX` where it does not.
pub open spec fn saturated(x: nat) -> u64 {
    if x > u64::MAX {
        u64::MAX
    } else {
        x as u64
    }
}

/// Computes `num * scale / den` rounded down, saturating at `u64::MAX`;
/// a zero denominator gives `0`.
pub fn scaled_div(num: u64, scale: u64, den: u128) -> (q: u64)
    ensures
        q == saturated(scaled_quotient(num as nat, scale as nat, den as nat)),
{
    if den == 0 {
        return 0;
    }
    assert(num * scale <= u128::MAX) by (nonlinear_arith)
        requires
            num <= u64::MAX,
            scale <= u64::MAX,
    ;
    let product: u128 = (num as u128) * (scale as u128);
    let quotient: u128 = product / den;
    if quotient > u64::MAX as u128 {
        u64::MAX
    } else {
        quotient as u64
    }
}

} // verus!
