//! Admin operations: pool-parameter updates and treasury sweeps.

use vstd::prelude::*;

use crate::account_id::AccountId;
use crate::errors::ErrorCode;
use crate::pool::PoolInfo;

verus! {

/// Replaces every configuration field of the pool at once.  Only the
/// recorded admin may call this; the new values must satisfy the
/// configuration invariant.
pub fn update_pool_info(
    pool: &mut PoolInfo,
    caller: AccountId,
    admin: AccountId,
    token_vault: AccountId,
    lock_time: u64,
    apy: u64,
    apy_denominator: u64,
    roi_type: u64,
    token: AccountId,
) -> (r: Result<(), ErrorCode>)
    requires
        lock_time >= 1,
        apy_denominator >= 1,
        roi_type <= 2,
    ensures
        caller != old(pool).admin ==> r == Err::<(), ErrorCode>(ErrorCode::Unauthorized)
            && *final(pool) == *old(pool),
        caller == old(pool).admin ==> r == Ok::<(), ErrorCode>(()) && *final(pool) == (PoolInfo {
            admin,
            token_vault,
            lock_time,
            apy,
            apy_denominator,
            roi_type,
            token,
        }),
        r is Ok ==> final(pool).wf(),
{
    if caller != pool.admin {
        return Err(ErrorCode::Unauthorized);
    }
    pool.admin = admin;
    pool.token_vault = token_vault;
    pool.lock_time = lock_time;
    pool.apy = apy;
    pool.apy_denominator = apy_denominator;
    pool.roi_type = roi_type;
    pool.token = token;
    Ok(())
}

/// Authorizes a sweep of `value` from the pool's treasury vault to an
/// admin-designated wallet.  Only the recorded admin may call this; the
/// amount is deliberately not checked against outstanding claim
/// obligations.  Returns the amount the runtime must transfer.
pub fn admin_withdraw(pool: &PoolInfo, caller: AccountId, value: u64) -> (r: Result<
    u64,
    ErrorCode,
>)
    ensures
        caller == pool.admin ==> r == Ok::<u64, ErrorCode>(value),
        caller != pool.admin ==> r == Err::<u64, ErrorCode>(ErrorCode::Unauthorized),
{
    if caller != pool.admin {
        return Err(ErrorCode::Unauthorized);
    }
    Ok(value)
}

} // verus!
