//! Scaling whole token units to a mint's smallest denomination.
use vstd::prelude::*;
use crate::error::ErrorCode;

verus! {

/// Ten to the power `d`.
pub open spec fn pow10(d: nat) -> nat
    decreases d,
{
    if d == 0 {
        1
    } else {
        10 * pow10((d - 1) as nat)
    }
}

/// `units` whole units in a mint with `decimals` decimal places.
pub open spec fn scaled(units: u64, decimals: u8) -> int {
    units * pow10(decimals as nat)
}

/// The scaled amount, or `ArithmeticOverflow` where it does not fit in 64 bits.
pub open spec fn scaled_result(units: u64, decimals: u8) -> Result<u64, ErrorCode> {
    if scaled(units, decimals) <= u64::MAX {
        Ok(scaled(units, decimals) as u64)
    } else {
        Err(ErrorCode::ArithmeticOverflow)
    }
}

proof fn lemma_pow10_monotonic(a: nat, b: nat)
    requires
        a <= b,
    ensures
        1 <= pow10(a) <= pow10(b),
    decreases b,
{
    if b > a {
        lemma_pow10_monotonic(a, (b - 1) as nat);
    } else if a > 0 {
        lemma_pow10_monotonic((a - 1) as nat, (a - 1) as nat);
    }
}

/// The reward grows with the elapsed units: more units never pay less, and
/// where the larger reward can be paid, so can the smaller.
pub proof fn lemma_reward_monotonic(elapsed: u64, later: u64, decimals: u8)
    requires
        elapsed <= later,
    ensures
        scaled(elapsed, decimals) <= scaled(later, decimals),
        scaled_result(later, decimals) is Ok ==> scaled_result(elapsed, decimals) is Ok
            && scaled_result(elapsed, decimals)->Ok_0 <= scaled_result(later, decimals)->Ok_0,
{
    let p = pow10(decimals as nat);
    assert(elapsed * p <= later * p) by (nonlinear_arith)
        requires
            elapsed <= later,
            p >= 0,
    ;
}

/// Converts `units` whole units to the smallest denomination of a mint with
/// `decimals` decimal places.
pub fn scale_amount(units: u64, decimals: u8) -> (r: Result<u64, ErrorCode>)
    ensures
        r == scaled_result(units, decimals),
{
    if units == 0 {
        return Ok(0);
    }
    let mut acc: u64 = units;
    let mut i: u8 = 0;
    assert(pow10(0) == 1);
    while i < decimals
        invariant
            i <= decimals,
            units >= 1,
            acc == units * pow10(i as nat),
        decreases decimals - i,
    {
        if acc > u64::MAX / 10 {
            proof {
                lemma_pow10_monotonic((i + 1) as nat, decimals as nat);
                let p = pow10((i + 1) as nat);
                let q = pow10(decimals as nat);
                assert(units * p <= units * q) by (nonlinear_arith)
                    requires
                        p <= q,
                        units >= 1,
                ;
                assert(units * p == acc * 10) by (nonlinear_arith)
                    requires
                        p == 10 * pow10(i as nat),
                        acc == units * pow10(i as nat),
                ;
            }
            return Err(ErrorCode::ArithmeticOverflow);
        }
        proof {
            assert(units * (10 * pow10(i as nat)) == acc * 10) by (nonlinear_arith)
                requires
                    acc == units * pow10(i as nat),
            ;
        }
        acc = acc * 10;
        i = i + 1;
    }
    Ok(acc)
}

} // verus!
