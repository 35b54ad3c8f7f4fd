//! Relational properties of the lifecycle operations.

use vstd::prelude::*;

use vstd::arithmetic::div_mod::lemma_basic_div;

use crate::errors::ErrorCode;
use crate::lifecycle::{claim_guards_pass, settle_arith_fits, spec_claim, spec_restake};
use crate::pool::{spec_cycle_length, PoolInfo};
use crate::position::StakeInfo;

verus! {

/// Two claim attempts both made before one full cadence has elapsed since
/// the position's last recorded interaction fail with the too-early error,
/// and a failed claim changes no field, so the second attempt sees the
/// same position as the first.
pub proof fn lemma_claim_too_early_twice(pos: StakeInfo, pool: PoolInfo, now1: u64, now2: u64)
    requires
        claim_guards_pass(pos),
        pool.roi_type <= 2,
        pos.last_interaction_time <= now1 <= now2,
        now2 - pos.last_interaction_time < spec_cycle_length(pool.roi_type),
    ensures
        spec_claim(pos, pool, now1) == Err::<(StakeInfo, u64), ErrorCode>(ErrorCode::Wait),
        spec_claim(pos, pool, now2) == Err::<(StakeInfo, u64), ErrorCode>(ErrorCode::Wait),
{
    let len = spec_cycle_length(pool.roi_type) as int;
    lemma_basic_div(now1 - pos.last_interaction_time, len);
    lemma_basic_div(now2 - pos.last_interaction_time, len);
}

/// Restaking succeeds exactly when claiming would, pays the same computed
/// claimable amount, fails with the same error otherwise, and adjusts the
/// unclaimed-reward and cycle bookkeeping identically; the only difference
/// is that the principal grows by exactly the paid amount.
pub proof fn lemma_restake_matches_claim(pos: StakeInfo, pool: PoolInfo, now: u64)
    ensures
        spec_claim(pos, pool, now) matches Err(e) ==> spec_restake(pos, pool, now) == Err::<
            (StakeInfo, u64),
            ErrorCode,
        >(e),
        spec_claim(pos, pool, now) is Ok <==> spec_restake(pos, pool, now) is Ok,
        settle_arith_fits(pos, pool, now, true) ==> (spec_claim(pos, pool, now) matches Ok(c)
            ==> spec_restake(pos, pool, now) matches Ok(t) && t.1 == c.1 && t.0.staked_amount
            == pos.staked_amount + c.1 && t.0.unclaimed_rewards == c.0.unclaimed_rewards
            && c.0.staked_amount == pos.staked_amount && t.0 == (StakeInfo {
            staked_amount: t.0.staked_amount,
            ..c.0
        })),
{
}

} // verus!
