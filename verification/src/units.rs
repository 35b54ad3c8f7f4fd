//! Decimal scaling between whole tokens and smallest value units.

use vstd::prelude::*;

verus! {

/// Ten to the `n`th power.
pub open spec fn spec_pow10(n: nat) -> int
    decreases n,
{
    if n == 0 {
        1
    } else {
        10 * spec_pow10((n - 1) as nat)
    }
}

pub proof fn lemma_pow10_monotone(m: nat, n: nat)
    requires
        m <= n,
    ensures
        1 <= spec_pow10(m),
        spec_pow10(m) <= spec_pow10(n),
    decreases n,
{
    if n > 0 {
        if m == n {
            lemma_pow10_monotone((m - 1) as nat, (n - 1) as nat);
        } else {
            lemma_pow10_monotone(m, (n - 1) as nat);
        }
    }
}

/// Computes ten to the `decimals`th power.
pub fn pow10(decimals: u8) -> (r: u64)
    requires
        spec_pow10(decimals as nat) <= u64::MAX,
    ensures
        r == spec_pow10(decimals as nat),
{
    let mut result: u64 = 1;
    let mut i: u8 = 0;
    while i < decimals
        invariant
            i <= decimals,
            result == spec_pow10(i as nat),
            spec_pow10(decimals as nat) <= u64::MAX,
        decreases decimals - i,
    {
        proof {
            lemma_pow10_monotone((i + 1) as nat, decimals as nat);
        }
        result = result * 10;
        i = i + 1;
    }
    result
}

/// Converts a whole-token amount to smallest value units by scaling with
/// the value's decimal exponent.
pub fn scale_amount(amount: u64, decimals: u8) -> (r: u64)
    requires
        spec_pow10(decimals as nat) <= u64::MAX,
        amount * spec_pow10(decimals as nat) <= u64::MAX,
    ensures
        r == amount * spec_pow10(decimals as nat),
{
    let p = pow10(decimals);
    amount * p
}

} // verus!
