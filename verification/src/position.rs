//! The mutable stake-position record of one participant against one pool.

use vstd::prelude::*;

use crate::account_id::AccountId;

verus! {

/// A participant's lease record against a pool, keyed by
/// (pool, owner, nonce).  Logically destroyed, not deallocated, on a
/// successful destake.
#[derive(Clone, Copy, PartialEq, Eq, Structural, Debug)]
pub struct StakeInfo {
    /// Locked principal, in smallest value units.
    pub staked_amount: u64,
    /// Wall-clock timestamp recorded at stake time.
    pub deposit_timestamp: i64,
    /// Tick at which the stake was made.
    pub stake_at_slot: u64,
    pub is_staked: bool,
    /// Tick at which the lock expires.
    pub end_time: u64,
    /// Whether rewards auto-compound and pay out only at destake.
    pub autostake: bool,
    pub unclaimed_rewards: u64,
    pub last_interaction_time: u64,
    pub next_claim_time: u64,
    /// The pool this position is held against.
    pub pool_info: AccountId,
    pub total_claimed: u64,
    /// Number of claimable cycles over the whole lock period.
    pub total_claim_cycles: u64,
    pub claim_cycles_passed: u64,
    /// Caller-supplied nonce disambiguating positions of one owner.
    pub stake_seed: u64,
    /// Re-entrancy guard; false whenever no operation is mid-flight.
    pub in_process: bool,
}

impl StakeInfo {
    /// The position invariant: claimed cycles never exceed the total.
    pub open spec fn wf(self) -> bool {
        self.claim_cycles_passed <= self.total_claim_cycles
    }

    pub open spec fn spec_new_record() -> StakeInfo {
        StakeInfo {
            staked_amount: 0,
            deposit_timestamp: 0,
            stake_at_slot: 0,
            is_staked: false,
            end_time: 0,
            autostake: false,
            unclaimed_rewards: 0,
            last_interaction_time: 0,
            next_claim_time: 0,
            pool_info: AccountId::spec_zeroed(),
            total_claimed: 0,
            total_claim_cycles: 0,
            claim_cycles_passed: 0,
            stake_seed: 0,
            in_process: false,
        }
    }

    /// A zeroed, never-staked record: the state of a freshly created
    /// position account.
    pub fn new_record() -> (r: StakeInfo)
        ensures
            r == StakeInfo::spec_new_record(),
            r.wf(),
    {
        StakeInfo {
            staked_amount: 0,
            deposit_timestamp: 0,
            stake_at_slot: 0,
            is_staked: false,
            end_time: 0,
            autostake: false,
            unclaimed_rewards: 0,
            last_interaction_time: 0,
            next_claim_time: 0,
            pool_info: AccountId::zeroed(),
            total_claimed: 0,
            total_claim_cycles: 0,
            claim_cycles_passed: 0,
            stake_seed: 0,
            in_process: false,
        }
    }
}

} // verus!
