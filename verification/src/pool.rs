//! Pool configuration: the static parameters of a reward pool.

use vstd::prelude::*;

use crate::account_id::AccountId;
use crate::constants::{SLOTS_PER_DAY, SLOTS_PER_MONTH, SLOTS_PER_WEEK};
use crate::errors::ErrorCode;

verus! {

/// Static parameters of a reward pool.  Created once by an admin and
/// mutated only through the admin operations.
#[derive(Clone, Copy, PartialEq, Eq, Structural, Debug)]
pub struct PoolInfo {
    pub admin: AccountId,
    pub token_vault: AccountId,
    /// Lock duration in ticks; always positive.
    pub lock_time: u64,
    /// Annual-rate numerator.
    pub apy: u64,
    /// Annual-rate denominator; always positive.
    pub apy_denominator: u64,
    /// Cadence selector: 0 is daily, 1 is weekly, 2 is monthly.
    pub roi_type: u64,
    pub token: AccountId,
}

impl PoolInfo {
    /// The configuration invariant: positive lock duration, positive rate
    /// denominator, and a known cadence.
    pub open spec fn wf(self) -> bool {
        &&& self.lock_time >= 1
        &&& self.apy_denominator >= 1
        &&& self.roi_type <= 2
    }
}

/// The cycle length in ticks of a cadence selector; meaningful only for
/// selectors up to 2.
pub open spec fn spec_cycle_length(roi_type: u64) -> u64 {
    if roi_type == 0 {
        SLOTS_PER_DAY
    } else if roi_type == 1 {
        SLOTS_PER_WEEK
    } else {
        SLOTS_PER_MONTH
    }
}

/// Resolves a cadence selector to its cycle length in ticks.
pub fn cycle_length(roi_type: u64) -> (r: Result<u64, ErrorCode>)
    ensures
        roi_type <= 2 ==> r == Ok::<u64, ErrorCode>(spec_cycle_length(roi_type)),
        roi_type > 2 ==> r == Err::<u64, ErrorCode>(ErrorCode::InvalidRoiType),
        r matches Ok(len) ==> 1 <= len <= SLOTS_PER_MONTH,
{
    if roi_type == 0 {
        Ok(SLOTS_PER_DAY)
    } else if roi_type == 1 {
        Ok(SLOTS_PER_WEEK)
    } else if roi_type == 2 {
        Ok(SLOTS_PER_MONTH)
    } else {
        Err(ErrorCode::InvalidRoiType)
    }
}

/// The exact outcome of `initialize` on a given prior pool record.
pub open spec fn spec_initialize(
    pool: PoolInfo,
    admin: AccountId,
    token_vault: AccountId,
    token: AccountId,
    lock_time: u64,
    apy: u64,
    apy_denominator: u64,
    roi_type: u64,
) -> Result<PoolInfo, ErrorCode> {
    if lock_time == 0 {
        Err(ErrorCode::InvalidLockTime)
    } else if apy == 0 {
        Err(ErrorCode::InvalidApy)
    } else if apy_denominator == 0 {
        Err(ErrorCode::InvalidApyDenominator)
    } else if roi_type > 2 {
        Err(ErrorCode::InvalidRoiType)
    } else if pool.admin != AccountId::spec_zeroed() && pool.admin != admin {
        Err(ErrorCode::UnauthorizedAdmin)
    } else {
        Ok(
            PoolInfo {
                admin,
                token_vault,
                lock_time,
                apy,
                apy_denominator,
                roi_type,
                token,
            },
        )
    }
}

/// Creates a reward pool: validates the parameters, refuses to take over a
/// pool already administered by someone else, and records the
/// configuration.  The caller becomes the admin.
pub fn initialize(
    pool: &mut PoolInfo,
    admin: AccountId,
    token_vault: AccountId,
    token: AccountId,
    lock_time: u64,
    apy: u64,
    apy_denominator: u64,
    roi_type: u64,
) -> (r: Result<(), ErrorCode>)
    ensures
        r matches Ok(()) ==> spec_initialize(
            *old(pool),
            admin,
            token_vault,
            token,
            lock_time,
            apy,
            apy_denominator,
            roi_type,
        ) == Ok::<PoolInfo, ErrorCode>(*final(pool)),
        r matches Err(e) ==> spec_initialize(
            *old(pool),
            admin,
            token_vault,
            token,
            lock_time,
            apy,
            apy_denominator,
            roi_type,
        ) == Err::<PoolInfo, ErrorCode>(e) && *final(pool) == *old(pool),
        r is Ok ==> final(pool).wf() && final(pool).admin == admin,
{
    if lock_time == 0 {
        return Err(ErrorCode::InvalidLockTime);
    }
    if apy == 0 {
        return Err(ErrorCode::InvalidApy);
    }
    if apy_denominator == 0 {
        return Err(ErrorCode::InvalidApyDenominator);
    }
    if roi_type > 2 {
        return Err(ErrorCode::InvalidRoiType);
    }
    let zero = AccountId::zeroed();
    if pool.admin != zero && pool.admin != admin {
        return Err(ErrorCode::UnauthorizedAdmin);
    }
    pool.admin = admin;
    pool.token_vault = token_vault;
    pool.lock_time = lock_time;
    pool.apy = apy;
    pool.apy_denominator = apy_denominator;
    pool.roi_type = roi_type;
    pool.token = token;
    Ok(())
}

} // verus!
