//! The stake lifecycle controller: stake, destake, claim and restake.
//!
//! Each operation validates the position's state, computes through the
//! reward arithmetic, commits the updated position fields, and returns the
//! amount the runtime must transfer.  Every failure leaves the position
//! unchanged, and the re-entrancy guard is false whenever an operation
//! returns.

use vstd::prelude::*;

use crate::account_id::AccountId;
use crate::errors::ErrorCode;
use crate::pool::{cycle_length, spec_cycle_length, PoolInfo};
use crate::position::StakeInfo;
use crate::rewards::{
    claimable_cycles, compound_fits, compound_rewards, cycles_elapsed, reward_rate,
    spec_claimable_cycles, spec_compound_stake, spec_cycle_reward, spec_cycles_elapsed,
};
use crate::units::{scale_amount, spec_pow10};

verus! {

// ---------------------------------------------------------------------------
// stake
// ---------------------------------------------------------------------------

/// Whether a stake request passes every state guard.
pub open spec fn stake_guards_pass(pos: StakeInfo, stake_counter: u64, amount: u64) -> bool {
    &&& !pos.is_staked
    &&& pos.stake_seed != stake_counter
    &&& amount != 0
    &&& !pos.in_process
}

/// The machine-limit side conditions of `stake`: the scaled amount and the
/// derived ticks must fit in 64 bits.
pub open spec fn stake_arith_fits(pool: PoolInfo, amount: u64, decimals: u8, now_slot: u64) -> bool {
    &&& spec_pow10(decimals as nat) <= u64::MAX
    &&& amount * spec_pow10(decimals as nat) <= u64::MAX
    &&& now_slot + pool.lock_time <= u64::MAX
    &&& now_slot + spec_cycle_length(pool.roi_type) <= u64::MAX
}

/// The exact outcome of `stake`.
pub open spec fn spec_stake(
    pos: StakeInfo,
    pool: PoolInfo,
    pool_key: AccountId,
    stake_counter: u64,
    amount: u64,
    autostake: bool,
    now_slot: u64,
    now_timestamp: i64,
    decimals: u8,
) -> Result<(StakeInfo, u64), ErrorCode> {
    if pos.is_staked {
        Err(ErrorCode::IsStaked)
    } else if pos.stake_seed == stake_counter {
        Err(ErrorCode::IsStakeSeed)
    } else if amount == 0 {
        Err(ErrorCode::NoTokens)
    } else if pos.in_process {
        Err(ErrorCode::AlreadyInProcess)
    } else if pool.roi_type > 2 {
        Err(ErrorCode::InvalidRoiType)
    } else {
        let len = spec_cycle_length(pool.roi_type);
        let scaled = (amount * spec_pow10(decimals as nat)) as u64;
        Ok(
            (
                StakeInfo {
                    staked_amount: scaled,
                    deposit_timestamp: now_timestamp,
                    stake_at_slot: now_slot,
                    is_staked: true,
                    end_time: (now_slot + pool.lock_time) as u64,
                    autostake,
                    unclaimed_rewards: 0,
                    last_interaction_time: now_slot,
                    next_claim_time: (now_slot + len) as u64,
                    pool_info: pool_key,
                    total_claimed: 0,
                    total_claim_cycles: pool.lock_time / len,
                    claim_cycles_passed: 0,
                    stake_seed: stake_counter,
                    in_process: false,
                },
                scaled,
            ),
        )
    }
}

/// Opens a position: validates the request, records the stake parameters
/// and the cycle schedule, and returns the scaled amount the runtime must
/// move from the owner's wallet into the position's principal vault.
///
/// On success the recorded principal equals the transferred amount, the
/// total cycle count is the lock duration divided by the cadence length,
/// and the re-entrancy guard is clear.  A position already staked under
/// this record refuses with `IsStaked`, whatever the other arguments.
pub fn stake(
    pos: &mut StakeInfo,
    pool: &PoolInfo,
    pool_key: AccountId,
    stake_counter: u64,
    amount: u64,
    autostake: bool,
    now_slot: u64,
    now_timestamp: i64,
    decimals: u8,
) -> (r: Result<u64, ErrorCode>)
    requires
        stake_guards_pass(*old(pos), stake_counter, amount) && pool.roi_type <= 2
            ==> stake_arith_fits(*pool, amount, decimals, now_slot),
    ensures
        spec_stake(
            *old(pos),
            *pool,
            pool_key,
            stake_counter,
            amount,
            autostake,
            now_slot,
            now_timestamp,
            decimals,
        ) matches Ok(p) ==> r == Ok::<u64, ErrorCode>(p.1) && *final(pos) == p.0,
        spec_stake(
            *old(pos),
            *pool,
            pool_key,
            stake_counter,
            amount,
            autostake,
            now_slot,
            now_timestamp,
            decimals,
        ) matches Err(e) ==> r == Err::<u64, ErrorCode>(e) && *final(pos) == *old(pos),
        old(pos).is_staked ==> r == Err::<u64, ErrorCode>(ErrorCode::IsStaked),
        r matches Ok(a) ==> final(pos).is_staked && !final(pos).in_process && final(pos).wf()
            && final(pos).staked_amount == a && final(pos).total_claim_cycles == pool.lock_time
            / spec_cycle_length(pool.roi_type),
        r is Err ==> *final(pos) == *old(pos),
{
    if pos.is_staked {
        return Err(ErrorCode::IsStaked);
    }
    if pos.stake_seed == stake_counter {
        return Err(ErrorCode::IsStakeSeed);
    }
    if amount == 0 {
        return Err(ErrorCode::NoTokens);
    }
    if pos.in_process {
        return Err(ErrorCode::AlreadyInProcess);
    }
    let len = match cycle_length(pool.roi_type) {
        Ok(l) => l,
        Err(e) => { return Err(e) },
    };
    let scaled = scale_amount(amount, decimals);
    pos.staked_amount = scaled;
    pos.deposit_timestamp = now_timestamp;
    pos.stake_at_slot = now_slot;
    pos.is_staked = true;
    pos.end_time = now_slot + pool.lock_time;
    pos.autostake = autostake;
    pos.unclaimed_rewards = 0;
    pos.last_interaction_time = now_slot;
    pos.next_claim_time = now_slot + len;
    pos.pool_info = pool_key;
    pos.total_claimed = 0;
    pos.total_claim_cycles = pool.lock_time / len;
    pos.claim_cycles_passed = 0;
    pos.stake_seed = stake_counter;
    pos.in_process = false;
    Ok(scaled)
}

// ---------------------------------------------------------------------------
// claim_rewards / restake_rewards
// ---------------------------------------------------------------------------

/// Whether a claim or restake request passes every state guard.
pub open spec fn claim_guards_pass(pos: StakeInfo) -> bool {
    &&& pos.is_staked
    &&& pos.claim_cycles_passed != pos.total_claim_cycles
    &&& pos.last_interaction_time <= pos.end_time
    &&& !pos.autostake
    &&& !pos.in_process
}

/// The error raised when a claim or restake guard fails, in check order.
pub open spec fn claim_guard_error(pos: StakeInfo) -> ErrorCode {
    if !pos.is_staked {
        ErrorCode::NotStaked
    } else if pos.claim_cycles_passed == pos.total_claim_cycles {
        ErrorCode::AlreadyClaimed
    } else if pos.last_interaction_time > pos.end_time {
        ErrorCode::TimeOver
    } else if pos.autostake {
        ErrorCode::NoClaim
    } else {
        ErrorCode::AlreadyInProcess
    }
}

/// The machine-limit side conditions of a claim or restake settlement.
/// `restake` marks the variant that also grows the principal.
pub open spec fn settle_arith_fits(pos: StakeInfo, pool: PoolInfo, now: u64, restake: bool) -> bool {
    let len = spec_cycle_length(pool.roi_type);
    let cycle_reward = spec_cycle_reward(pos.staked_amount, pool.apy, pool.apy_denominator, len);
    let elapsed = spec_cycles_elapsed(now, pos.last_interaction_time, len);
    let rem = spec_claimable_cycles(elapsed, pos.total_claim_cycles, pos.claim_cycles_passed);
    let total = pos.unclaimed_rewards + cycle_reward * rem;
    &&& pos.staked_amount * pool.apy <= u64::MAX
    &&& cycle_reward <= u64::MAX
    &&& now >= pos.last_interaction_time
    &&& elapsed >= 1 ==> total <= u64::MAX
    &&& elapsed >= 1 && total > 0 ==> {
        &&& pos.total_claimed + total <= u64::MAX
        &&& pos.last_interaction_time + len * (rem + 1) <= u64::MAX
        &&& restake ==> pos.staked_amount + total <= u64::MAX
    }
}

/// The exact outcome of a settlement: the updated position and the amount
/// paid from the treasury.  `restake` additionally adds that amount to the
/// principal.
pub open spec fn spec_settle(pos: StakeInfo, pool: PoolInfo, now: u64, restake: bool) -> Result<
    (StakeInfo, u64),
    ErrorCode,
> {
    if !claim_guards_pass(pos) {
        Err(claim_guard_error(pos))
    } else if pool.roi_type > 2 {
        Err(ErrorCode::InvalidRoiType)
    } else {
        let len = spec_cycle_length(pool.roi_type);
        let cycle_reward = spec_cycle_reward(pos.staked_amount, pool.apy, pool.apy_denominator, len);
        let elapsed = spec_cycles_elapsed(now, pos.last_interaction_time, len);
        if elapsed < 1 {
            Err(ErrorCode::Wait)
        } else {
            let rem = spec_claimable_cycles(elapsed, pos.total_claim_cycles, pos.claim_cycles_passed);
            let total = pos.unclaimed_rewards + cycle_reward * rem;
            if total <= 0 {
                Err(ErrorCode::NoReward)
            } else {
                Ok(
                    (
                        StakeInfo {
                            staked_amount: if restake {
                                (pos.staked_amount + total) as u64
                            } else {
                                pos.staked_amount
                            },
                            unclaimed_rewards: if pos.unclaimed_rewards >= total {
                                (pos.unclaimed_rewards - total) as u64
                            } else {
                                0
                            },
                            next_claim_time: (pos.last_interaction_time + len * (rem + 1)) as u64,
                            last_interaction_time: now,
                            total_claimed: (pos.total_claimed + total) as u64,
                            claim_cycles_passed: (pos.claim_cycles_passed + rem) as u64,
                            in_process: false,
                            ..pos
                        },
                        total as u64,
                    ),
                )
            }
        }
    }
}

/// The exact outcome of `claim_rewards`.
pub open spec fn spec_claim(pos: StakeInfo, pool: PoolInfo, now: u64) -> Result<
    (StakeInfo, u64),
    ErrorCode,
> {
    spec_settle(pos, pool, now, false)
}

/// The exact outcome of `restake_rewards`.
pub open spec fn spec_restake(pos: StakeInfo, pool: PoolInfo, now: u64) -> Result<
    (StakeInfo, u64),
    ErrorCode,
> {
    spec_settle(pos, pool, now, true)
}

/// Pays the accumulated claimable reward to the owner's wallet: advances
/// the cycle bookkeeping and returns the amount the runtime must transfer
/// from the treasury to the owner.
///
/// An auto-compounding position refuses with `NoClaim` no matter how much
/// time has elapsed; less than one full cycle since the last interaction
/// refuses with `Wait` and changes nothing.
pub fn claim_rewards(pos: &mut StakeInfo, pool: &PoolInfo, now: u64) -> (r: Result<u64, ErrorCode>)
    requires
        old(pos).wf(),
        claim_guards_pass(*old(pos)) ==> pool.apy_denominator >= 1 && old(pos).staked_amount
            * pool.apy <= u64::MAX,
        claim_guards_pass(*old(pos)) && pool.roi_type <= 2 ==> settle_arith_fits(
            *old(pos),
            *pool,
            now,
            false,
        ),
    ensures
        spec_claim(*old(pos), *pool, now) matches Ok(p) ==> r == Ok::<u64, ErrorCode>(p.1)
            && *final(pos) == p.0,
        spec_claim(*old(pos), *pool, now) matches Err(e) ==> r == Err::<u64, ErrorCode>(e)
            && *final(pos) == *old(pos),
        final(pos).wf(),
        !old(pos).in_process ==> !final(pos).in_process,
        old(pos).is_staked && old(pos).claim_cycles_passed != old(pos).total_claim_cycles && old(
            pos,
        ).last_interaction_time <= old(pos).end_time && old(pos).autostake ==> r == Err::<
            u64,
            ErrorCode,
        >(ErrorCode::NoClaim),
        r is Err ==> *final(pos) == *old(pos),
{
    settle_rewards(pos, pool, now, false)
}

/// Compounds the accumulated claimable reward into the principal: the same
/// settlement as `claim_rewards`, except the payout goes into the
/// position's principal vault and the recorded principal grows by exactly
/// that amount.
pub fn restake_rewards(pos: &mut StakeInfo, pool: &PoolInfo, now: u64) -> (r: Result<
    u64,
    ErrorCode,
>)
    requires
        old(pos).wf(),
        claim_guards_pass(*old(pos)) ==> pool.apy_denominator >= 1 && old(pos).staked_amount
            * pool.apy <= u64::MAX,
        claim_guards_pass(*old(pos)) && pool.roi_type <= 2 ==> settle_arith_fits(
            *old(pos),
            *pool,
            now,
            true,
        ),
    ensures
        spec_restake(*old(pos), *pool, now) matches Ok(p) ==> r == Ok::<u64, ErrorCode>(p.1)
            && *final(pos) == p.0,
        spec_restake(*old(pos), *pool, now) matches Err(e) ==> r == Err::<u64, ErrorCode>(e)
            && *final(pos) == *old(pos),
        final(pos).wf(),
        !old(pos).in_process ==> !final(pos).in_process,
        r matches Ok(a) ==> final(pos).staked_amount == old(pos).staked_amount + a,
        old(pos).is_staked && old(pos).claim_cycles_passed != old(pos).total_claim_cycles && old(
            pos,
        ).last_interaction_time <= old(pos).end_time && old(pos).autostake ==> r == Err::<
            u64,
            ErrorCode,
        >(ErrorCode::NoClaim),
        r is Err ==> *final(pos) == *old(pos),
{
    settle_rewards(pos, pool, now, true)
}

/// The shared settlement body of `claim_rewards` and `restake_rewards`.
fn settle_rewards(pos: &mut StakeInfo, pool: &PoolInfo, now: u64, restake: bool) -> (r: Result<
    u64,
    ErrorCode,
>)
    requires
        old(pos).wf(),
        claim_guards_pass(*old(pos)) ==> pool.apy_denominator >= 1 && old(pos).staked_amount
            * pool.apy <= u64::MAX,
        claim_guards_pass(*old(pos)) && pool.roi_type <= 2 ==> settle_arith_fits(
            *old(pos),
            *pool,
            now,
            restake,
        ),
    ensures
        spec_settle(*old(pos), *pool, now, restake) matches Ok(p) ==> r == Ok::<u64, ErrorCode>(p.1)
            && *final(pos) == p.0,
        spec_settle(*old(pos), *pool, now, restake) matches Err(e) ==> r == Err::<u64, ErrorCode>(e)
            && *final(pos) == *old(pos),
        final(pos).wf(),
        !old(pos).in_process ==> !final(pos).in_process,
{
    if !pos.is_staked {
        return Err(ErrorCode::NotStaked);
    }
    if pos.claim_cycles_passed == pos.total_claim_cycles {
        return Err(ErrorCode::AlreadyClaimed);
    }
    if pos.last_interaction_time > pos.end_time {
        return Err(ErrorCode::TimeOver);
    }
    if pos.autostake {
        return Err(ErrorCode::NoClaim);
    }
    if pos.in_process {
        return Err(ErrorCode::AlreadyInProcess);
    }
    let rate = reward_rate(pos.staked_amount, pool.apy, pool.apy_denominator);
    let len = match cycle_length(pool.roi_type) {
        Ok(l) => l,
        Err(e) => { return Err(e) },
    };
    let cycle_reward = rate * len;
    let elapsed = cycles_elapsed(now, pos.last_interaction_time, len);
    if elapsed < 1 {
        return Err(ErrorCode::Wait);
    }
    let rem = claimable_cycles(elapsed, pos.total_claim_cycles, pos.claim_cycles_passed);
    let total = pos.unclaimed_rewards + cycle_reward * rem;
    if total == 0 {
        return Err(ErrorCode::NoReward);
    }
    if restake {
        pos.staked_amount = pos.staked_amount + total;
    }
    pos.total_claimed = pos.total_claimed + total;
    pos.unclaimed_rewards = if pos.unclaimed_rewards >= total {
        pos.unclaimed_rewards - total
    } else {
        0
    };
    proof {
        vstd::arithmetic::mul::lemma_mul_increases(len as int, rem + 1);
    }
    pos.next_claim_time = pos.last_interaction_time + len * (rem + 1);
    pos.last_interaction_time = now;
    pos.claim_cycles_passed = pos.claim_cycles_passed + rem;
    pos.in_process = false;
    Ok(total)
}

// ---------------------------------------------------------------------------
// calculate_rewards
// ---------------------------------------------------------------------------

/// The exact outcome of `calculate_rewards`.
pub open spec fn spec_calculate_rewards(pos: StakeInfo, pool: PoolInfo) -> Result<u64, ErrorCode> {
    if pos.staked_amount == 0 {
        Err(ErrorCode::InvalidAmount)
    } else if pool.apy_denominator == 0 {
        Err(ErrorCode::InvalidApyDenominator)
    } else if pool.roi_type > 2 {
        Err(ErrorCode::InvalidRoiType)
    } else {
        Ok(
            spec_cycle_reward(
                pos.staked_amount,
                pool.apy,
                pool.apy_denominator,
                spec_cycle_length(pool.roi_type),
            ) as u64,
        )
    }
}

/// Read-only projection of the next cycle's reward; mutates nothing and
/// transfers nothing.
pub fn calculate_rewards(pos: &StakeInfo, pool: &PoolInfo) -> (r: Result<u64, ErrorCode>)
    requires
        pos.staked_amount != 0 && pool.apy_denominator != 0 ==> pos.staked_amount * pool.apy
            <= u64::MAX && (pool.roi_type <= 2 ==> spec_cycle_reward(
            pos.staked_amount,
            pool.apy,
            pool.apy_denominator,
            spec_cycle_length(pool.roi_type),
        ) <= u64::MAX),
    ensures
        r == spec_calculate_rewards(*pos, *pool),
{
    if pos.staked_amount == 0 {
        return Err(ErrorCode::InvalidAmount);
    }
    if pool.apy_denominator == 0 {
        return Err(ErrorCode::InvalidApyDenominator);
    }
    let rate = reward_rate(pos.staked_amount, pool.apy, pool.apy_denominator);
    let len = match cycle_length(pool.roi_type) {
        Ok(l) => l,
        Err(e) => { return Err(e) },
    };
    Ok(rate * len)
}

// ---------------------------------------------------------------------------
// destake
// ---------------------------------------------------------------------------

/// Whether a destake request passes every state guard.
pub open spec fn destake_guards_pass(pos: StakeInfo, now: u64) -> bool {
    &&& pos.is_staked
    &&& now >= pos.end_time
    &&& !pos.in_process
}

/// The error raised when a destake guard fails, in check order.
pub open spec fn destake_guard_error(pos: StakeInfo, now: u64) -> ErrorCode {
    if !pos.is_staked {
        ErrorCode::NotStaked
    } else if now < pos.end_time {
        ErrorCode::StillLocked
    } else {
        ErrorCode::AlreadyInProcess
    }
}

/// The exact outcome of `destake`: the reset position, the compounded
/// reward owed from the treasury (zero unless the position auto-compounds)
/// and the principal returned from the position's vault.
pub open spec fn spec_destake(pos: StakeInfo, pool: PoolInfo, now: u64, stake_balance: u64) -> Result<
    (StakeInfo, u64, u64),
    ErrorCode,
> {
    if !destake_guards_pass(pos, now) {
        Err(destake_guard_error(pos, now))
    } else if pos.autostake && pool.roi_type > 2 {
        Err(ErrorCode::InvalidRoiType)
    } else {
        let reward = if pos.autostake {
            (spec_compound_stake(
                pos.staked_amount,
                pool.apy,
                pool.apy_denominator,
                spec_cycle_length(pool.roi_type),
                pos.total_claim_cycles as nat,
            ) - pos.staked_amount) as u64
        } else {
            0u64
        };
        Ok(
            (
                StakeInfo {
                    staked_amount: 0,
                    is_staked: false,
                    end_time: 0,
                    unclaimed_rewards: 0,
                    total_claimed: 0,
                    last_interaction_time: now,
                    next_claim_time: 0,
                    total_claim_cycles: 0,
                    claim_cycles_passed: 0,
                    in_process: false,
                    ..pos
                },
                reward,
                stake_balance,
            ),
        )
    }
}

/// Closes a position once the lock has expired: resets every accrual
/// counter and returns the amounts the runtime must transfer — the
/// compounded reward from the treasury (for an auto-compounding position)
/// and the full principal-vault balance back to the owner.
///
/// Before the lock expires this always refuses with `StillLocked`,
/// whatever the autostake flag or reward state.
pub fn destake(pos: &mut StakeInfo, pool: &PoolInfo, now: u64, stake_balance: u64) -> (r: Result<
    (u64, u64),
    ErrorCode,
>)
    requires
        destake_guards_pass(*old(pos), now) && old(pos).autostake ==> pool.apy_denominator >= 1 && (
        pool.roi_type <= 2 ==> compound_fits(
            old(pos).staked_amount,
            pool.apy,
            pool.apy_denominator,
            spec_cycle_length(pool.roi_type),
            old(pos).total_claim_cycles as nat,
        )),
    ensures
        spec_destake(*old(pos), *pool, now, stake_balance) matches Ok(p) ==> r == Ok::<
            (u64, u64),
            ErrorCode,
        >((p.1, p.2)) && *final(pos) == p.0,
        spec_destake(*old(pos), *pool, now, stake_balance) matches Err(e) ==> r == Err::<
            (u64, u64),
            ErrorCode,
        >(e) && *final(pos) == *old(pos),
        old(pos).is_staked && now < old(pos).end_time ==> r == Err::<(u64, u64), ErrorCode>(
            ErrorCode::StillLocked,
        ) && *final(pos) == *old(pos),
        r matches Ok(p) ==> !final(pos).is_staked && final(pos).staked_amount == 0 && p.1
            == stake_balance,
        old(pos).wf() ==> final(pos).wf(),
        !old(pos).in_process ==> !final(pos).in_process,
        r is Err ==> *final(pos) == *old(pos),
{
    if !pos.is_staked {
        return Err(ErrorCode::NotStaked);
    }
    if now < pos.end_time {
        return Err(ErrorCode::StillLocked);
    }
    if pos.in_process {
        return Err(ErrorCode::AlreadyInProcess);
    }
    let mut reward: u64 = 0;
    if pos.autostake {
        let len = match cycle_length(pool.roi_type) {
            Ok(l) => l,
            Err(e) => { return Err(e) },
        };
        reward = match compound_rewards(
            pos.staked_amount,
            pool.apy,
            pool.apy_denominator,
            len,
            pos.total_claim_cycles,
        ) {
            Some(t) => t,
            // The precondition guarantees the compounding fits, so the
            // computation cannot refuse.
            None => {
                proof {
                    assert(false);
                }
                0
            },
        };
    }
    pos.staked_amount = 0;
    pos.is_staked = false;
    pos.end_time = 0;
    pos.unclaimed_rewards = 0;
    pos.total_claimed = 0;
    pos.last_interaction_time = now;
    pos.next_claim_time = 0;
    pos.total_claim_cycles = 0;
    pos.claim_cycles_passed = 0;
    pos.in_process = false;
    Ok((reward, stake_balance))
}

} // verus!
