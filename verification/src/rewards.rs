//! Reward arithmetic: rate derivation, cycle counting and compounding.
//!
//! All functions here are pure arithmetic over configuration and position
//! values; they perform no custody transfer.

use vstd::prelude::*;

use vstd::arithmetic::div_mod::lemma_div_pos_is_pos;
use vstd::arithmetic::mul::{lemma_mul_inequality, lemma_mul_nonnegative};

use crate::constants::SLOTS_PER_YEAR;

verus! {

/// Reward accrued per tick: the annual rate applied to the principal,
/// truncated at each division.  The rounding loss favors the treasury.
pub open spec fn spec_reward_rate(staked_amount: u64, apy: u64, apy_denominator: u64) -> int {
    staked_amount * apy / (apy_denominator as int) / (SLOTS_PER_YEAR as int)
}

/// Reward paid for one full cadence cycle.
pub open spec fn spec_cycle_reward(
    staked_amount: u64,
    apy: u64,
    apy_denominator: u64,
    cycle_length: u64,
) -> int {
    spec_reward_rate(staked_amount, apy, apy_denominator) * cycle_length
}

/// Whole cycles elapsed between the last interaction and the current tick.
pub open spec fn spec_cycles_elapsed(now: u64, last_interaction_time: u64, cycle_length: u64) -> int {
    (now - last_interaction_time) / (cycle_length as int)
}

/// Elapsed cycles capped at the cycles still unclaimed.
pub open spec fn spec_claimable_cycles(
    elapsed: int,
    total_claim_cycles: u64,
    claim_cycles_passed: u64,
) -> int {
    if elapsed <= total_claim_cycles - claim_cycles_passed {
        elapsed
    } else {
        total_claim_cycles - claim_cycles_passed
    }
}

pub fn reward_rate(staked_amount: u64, apy: u64, apy_denominator: u64) -> (r: u64)
    requires
        apy_denominator >= 1,
        staked_amount * apy <= u64::MAX,
    ensures
        r == spec_reward_rate(staked_amount, apy, apy_denominator),
{
    staked_amount * apy / apy_denominator / SLOTS_PER_YEAR
}

pub fn cycles_elapsed(now: u64, last_interaction_time: u64, cycle_length: u64) -> (r: u64)
    requires
        last_interaction_time <= now,
        cycle_length >= 1,
    ensures
        r == spec_cycles_elapsed(now, last_interaction_time, cycle_length),
{
    (now - last_interaction_time) / cycle_length
}

pub fn claimable_cycles(elapsed: u64, total_claim_cycles: u64, claim_cycles_passed: u64) -> (r: u64)
    requires
        claim_cycles_passed <= total_claim_cycles,
    ensures
        r == spec_claimable_cycles(elapsed as int, total_claim_cycles, claim_cycles_passed),
{
    let remaining = total_claim_cycles - claim_cycles_passed;
    if elapsed <= remaining {
        elapsed
    } else {
        remaining
    }
}

/// The principal after `n` cycles of auto-compounding: each cycle's reward
/// is computed on the principal as it stood at the start of that cycle and
/// then added to it before the next cycle.
pub open spec fn spec_compound_stake(
    stake: u64,
    apy: u64,
    apy_denominator: u64,
    cycle_length: u64,
    n: nat,
) -> int
    decreases n,
{
    if n == 0 {
        stake as int
    } else {
        let prev = spec_compound_stake(stake, apy, apy_denominator, cycle_length, (n - 1) as nat);
        prev + (prev * apy / (apy_denominator as int) / (SLOTS_PER_YEAR as int)) * cycle_length
    }
}

/// Whether `n` cycles of compounding stay within the 64-bit range: the
/// final principal fits, and so does the widest intermediate product.
pub open spec fn compound_fits(
    stake: u64,
    apy: u64,
    apy_denominator: u64,
    cycle_length: u64,
    n: nat,
) -> bool {
    n == 0 || {
        &&& spec_compound_stake(stake, apy, apy_denominator, cycle_length, (n - 1) as nat) * apy
            <= u64::MAX
        &&& spec_compound_stake(stake, apy, apy_denominator, cycle_length, n) <= u64::MAX
    }
}

/// Compounding never shrinks the principal.
pub proof fn lemma_compound_nondecreasing(
    stake: u64,
    apy: u64,
    apy_denominator: u64,
    cycle_length: u64,
    n: nat,
)
    requires
        apy_denominator >= 1,
    ensures
        stake <= spec_compound_stake(stake, apy, apy_denominator, cycle_length, n),
        n >= 1 ==> spec_compound_stake(stake, apy, apy_denominator, cycle_length, (n - 1) as nat)
            <= spec_compound_stake(stake, apy, apy_denominator, cycle_length, n),
    decreases n,
{
    if n >= 1 {
        let prev = spec_compound_stake(stake, apy, apy_denominator, cycle_length, (n - 1) as nat);
        lemma_compound_nondecreasing(stake, apy, apy_denominator, cycle_length, (n - 1) as nat);
        lemma_mul_nonnegative(prev, apy as int);
        lemma_div_pos_is_pos(prev * apy, apy_denominator as int);
        lemma_div_pos_is_pos(prev * apy / (apy_denominator as int), SLOTS_PER_YEAR as int);
        lemma_mul_nonnegative(
            prev * apy / (apy_denominator as int) / (SLOTS_PER_YEAR as int),
            cycle_length as int,
        );
    }
}

/// The compounded principal is monotone in the cycle count.
pub proof fn lemma_compound_monotone(
    stake: u64,
    apy: u64,
    apy_denominator: u64,
    cycle_length: u64,
    m: nat,
    n: nat,
)
    requires
        apy_denominator >= 1,
        m <= n,
    ensures
        spec_compound_stake(stake, apy, apy_denominator, cycle_length, m) <= spec_compound_stake(
            stake,
            apy,
            apy_denominator,
            cycle_length,
            n,
        ),
    decreases n - m,
{
    if m < n {
        lemma_compound_nondecreasing(stake, apy, apy_denominator, cycle_length, n);
        lemma_compound_monotone(stake, apy, apy_denominator, cycle_length, m, (n - 1) as nat);
    }
}

/// Runs the auto-compounding loop over `cycles` cycles and returns the
/// accumulated reward (the compounded principal minus the original stake),
/// or `None` exactly when the computation would leave the 64-bit range.
pub fn compound_rewards(
    stake: u64,
    apy: u64,
    apy_denominator: u64,
    cycle_length: u64,
    cycles: u64,
) -> (r: Option<u64>)
    requires
        apy_denominator >= 1,
    ensures
        r matches Some(total) ==> {
            &&& compound_fits(stake, apy, apy_denominator, cycle_length, cycles as nat)
            &&& total == spec_compound_stake(stake, apy, apy_denominator, cycle_length, cycles as nat)
                - stake
        },
        r is None ==> !compound_fits(stake, apy, apy_denominator, cycle_length, cycles as nat),
{
    let mut current: u64 = stake;
    let mut total: u64 = 0;
    let mut i: u64 = 0;
    while i < cycles
        invariant
            apy_denominator >= 1,
            i <= cycles,
            current == spec_compound_stake(stake, apy, apy_denominator, cycle_length, i as nat),
            stake <= current,
            total == current - stake,
            compound_fits(stake, apy, apy_denominator, cycle_length, i as nat),
        decreases cycles - i,
    {
        let prod = match current.checked_mul(apy) {
            Some(p) => p,
            None => {
                proof {
                    lemma_compound_monotone(
                        stake,
                        apy,
                        apy_denominator,
                        cycle_length,
                        i as nat,
                        (cycles - 1) as nat,
                    );
                    lemma_mul_inequality(
                        current as int,
                        spec_compound_stake(
                            stake,
                            apy,
                            apy_denominator,
                            cycle_length,
                            (cycles - 1) as nat,
                        ),
                        apy as int,
                    );
                }
                return None;
            },
        };
        let rate = prod / apy_denominator / SLOTS_PER_YEAR;
        let reward = match rate.checked_mul(cycle_length) {
            Some(x) => x,
            None => {
                proof {
                    lemma_compound_monotone(
                        stake,
                        apy,
                        apy_denominator,
                        cycle_length,
                        (i + 1) as nat,
                        cycles as nat,
                    );
                }
                return None;
            },
        };
        let next = match current.checked_add(reward) {
            Some(x) => x,
            None => {
                proof {
                    lemma_compound_monotone(
                        stake,
                        apy,
                        apy_denominator,
                        cycle_length,
                        (i + 1) as nat,
                        cycles as nat,
                    );
                }
                return None;
            },
        };
        total = total + reward;
        current = next;
        i = i + 1;
    }
    Some(total)
}

} // verus!
