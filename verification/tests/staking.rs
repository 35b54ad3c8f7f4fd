use staking_program::account_id::AccountId;
use staking_program::admin::{admin_withdraw, update_pool_info};
use staking_program::errors::ErrorCode;
use staking_program::lifecycle::{calculate_rewards, claim_rewards, destake, restake_rewards, stake};
use staking_program::pool::{cycle_length, initialize, PoolInfo};
use staking_program::position::StakeInfo;

fn aid(n: u64) -> AccountId {
    AccountId { w0: n, w1: 0, w2: 0, w3: 0 }
}

const DAY: u64 = 216000;

/// A 12%-per-year daily pool with a 30-day lock.
fn daily_pool() -> PoolInfo {
    PoolInfo {
        admin: aid(1),
        token_vault: aid(2),
        lock_time: 30 * DAY,
        apy: 1200,
        apy_denominator: 10000,
        roi_type: 0,
        token: aid(3),
    }
}

/// A position of 1000 tokens at 6 decimals, staked at tick 0.
fn staked_position(autostake: bool) -> StakeInfo {
    let pool = daily_pool();
    let mut pos = StakeInfo::new_record();
    let r = stake(&mut pos, &pool, aid(9), 1, 1000, autostake, 0, 77, 6);
    assert_eq!(r, Ok(1_000_000_000));
    pos
}

#[test]
fn cycle_length_maps_selectors() {
    assert_eq!(cycle_length(0), Ok(DAY));
    assert_eq!(cycle_length(1), Ok(7 * DAY));
    assert_eq!(cycle_length(2), Ok(30 * DAY));
    assert_eq!(cycle_length(3), Err(ErrorCode::InvalidRoiType));
}

#[test]
fn initialize_validates_parameters() {
    let mut pool = daily_pool();
    let base = pool;
    assert_eq!(
        initialize(&mut pool, aid(1), aid(2), aid(3), 0, 1200, 10000, 0),
        Err(ErrorCode::InvalidLockTime)
    );
    assert_eq!(
        initialize(&mut pool, aid(1), aid(2), aid(3), 100, 0, 10000, 0),
        Err(ErrorCode::InvalidApy)
    );
    assert_eq!(
        initialize(&mut pool, aid(1), aid(2), aid(3), 100, 1200, 0, 0),
        Err(ErrorCode::InvalidApyDenominator)
    );
    assert_eq!(
        initialize(&mut pool, aid(1), aid(2), aid(3), 100, 1200, 10000, 3),
        Err(ErrorCode::InvalidRoiType)
    );
    assert_eq!(pool, base);
}

#[test]
fn initialize_refuses_foreign_takeover() {
    let mut pool = daily_pool();
    assert_eq!(
        initialize(&mut pool, aid(42), aid(2), aid(3), 100, 1200, 10000, 0),
        Err(ErrorCode::UnauthorizedAdmin)
    );
    assert_eq!(
        initialize(&mut pool, aid(1), aid(5), aid(6), 100, 7, 9, 2),
        Ok(())
    );
    assert_eq!(pool.token_vault, aid(5));
    assert_eq!(pool.lock_time, 100);
    assert_eq!(pool.apy, 7);
    assert_eq!(pool.apy_denominator, 9);
    assert_eq!(pool.roi_type, 2);
}

#[test]
fn initialize_fresh_pool_sets_admin() {
    let mut pool = PoolInfo {
        admin: AccountId::zeroed(),
        token_vault: AccountId::zeroed(),
        lock_time: 0,
        apy: 0,
        apy_denominator: 0,
        roi_type: 0,
        token: AccountId::zeroed(),
    };
    assert_eq!(
        initialize(&mut pool, aid(8), aid(2), aid(3), 50, 100, 1000, 1),
        Ok(())
    );
    assert_eq!(pool.admin, aid(8));
}

#[test]
fn stake_records_schedule() {
    let pos = staked_position(false);
    assert!(pos.is_staked);
    assert_eq!(pos.staked_amount, 1_000_000_000);
    assert_eq!(pos.end_time, 30 * DAY);
    assert_eq!(pos.total_claim_cycles, 30);
    assert_eq!(pos.claim_cycles_passed, 0);
    assert_eq!(pos.next_claim_time, DAY);
    assert_eq!(pos.last_interaction_time, 0);
    assert_eq!(pos.unclaimed_rewards, 0);
    assert_eq!(pos.stake_seed, 1);
    assert_eq!(pos.deposit_timestamp, 77);
    assert!(!pos.in_process);
}

#[test]
fn stake_same_nonce_while_active_is_refused() {
    let pool = daily_pool();
    let mut pos = staked_position(false);
    let before = pos;
    assert_eq!(
        stake(&mut pos, &pool, aid(9), 1, 1000, false, 5, 77, 6),
        Err(ErrorCode::IsStaked)
    );
    assert_eq!(pos, before);
}

#[test]
fn stake_rejects_reused_nonce_and_zero_amount() {
    let pool = daily_pool();
    let mut pos = StakeInfo::new_record();
    // A fresh record carries nonce zero, so nonce zero is never usable.
    assert_eq!(
        stake(&mut pos, &pool, aid(9), 0, 1000, false, 0, 0, 6),
        Err(ErrorCode::IsStakeSeed)
    );
    assert_eq!(
        stake(&mut pos, &pool, aid(9), 1, 0, false, 0, 0, 6),
        Err(ErrorCode::NoTokens)
    );
    let mut busy = StakeInfo::new_record();
    busy.in_process = true;
    assert_eq!(
        stake(&mut busy, &pool, aid(9), 1, 1000, false, 0, 0, 6),
        Err(ErrorCode::AlreadyInProcess)
    );
}

#[test]
fn stake_rejects_unknown_cadence() {
    let mut pool = daily_pool();
    pool.roi_type = 3;
    let mut pos = StakeInfo::new_record();
    assert_eq!(
        stake(&mut pos, &pool, aid(9), 1, 1000, false, 0, 0, 6),
        Err(ErrorCode::InvalidRoiType)
    );
}

#[test]
fn calculate_rewards_matches_rate_formula() {
    let pool = daily_pool();
    let pos = staked_position(false);
    let expected = 1_000_000_000u64 * 1200 / 10000 / (DAY * 365) * DAY;
    assert_eq!(expected, 216000);
    assert_eq!(calculate_rewards(&pos, &pool), Ok(expected));
}

#[test]
fn calculate_rewards_validates_inputs() {
    let pool = daily_pool();
    let empty = StakeInfo::new_record();
    assert_eq!(calculate_rewards(&empty, &pool), Err(ErrorCode::InvalidAmount));
    let pos = staked_position(false);
    let mut bad_pool = pool;
    bad_pool.apy_denominator = 0;
    assert_eq!(
        calculate_rewards(&pos, &bad_pool),
        Err(ErrorCode::InvalidApyDenominator)
    );
    let mut odd_pool = pool;
    odd_pool.roi_type = 9;
    assert_eq!(calculate_rewards(&pos, &odd_pool), Err(ErrorCode::InvalidRoiType));
}

#[test]
fn claim_after_one_cycle_pays_one_cycle() {
    let pool = daily_pool();
    let mut pos = staked_position(false);
    let r = claim_rewards(&mut pos, &pool, DAY);
    assert_eq!(r, Ok(216000));
    assert_eq!(pos.claim_cycles_passed, 1);
    assert_eq!(pos.total_claimed, 216000);
    assert_eq!(pos.unclaimed_rewards, 0);
    assert_eq!(pos.last_interaction_time, DAY);
    assert_eq!(pos.next_claim_time, 2 * DAY);
    assert!(!pos.in_process);
}

#[test]
fn claim_too_early_twice_changes_nothing() {
    let pool = daily_pool();
    let mut pos = staked_position(false);
    let before = pos;
    assert_eq!(claim_rewards(&mut pos, &pool, 100), Err(ErrorCode::Wait));
    assert_eq!(pos, before);
    assert_eq!(claim_rewards(&mut pos, &pool, DAY - 1), Err(ErrorCode::Wait));
    assert_eq!(pos, before);
}

#[test]
fn claim_caps_cycles_at_schedule_end() {
    let pool = daily_pool();
    let mut pos = staked_position(false);
    // 100 days have passed, but only 30 cycles were ever claimable.
    let r = claim_rewards(&mut pos, &pool, 100 * DAY);
    assert_eq!(r, Ok(30 * 216000));
    assert_eq!(pos.claim_cycles_passed, 30);
}

#[test]
fn claim_with_autostake_is_refused_regardless_of_time() {
    let pool = daily_pool();
    let mut pos = staked_position(true);
    let before = pos;
    for now in [1, DAY, 10 * DAY, 1000 * DAY] {
        assert_eq!(claim_rewards(&mut pos, &pool, now), Err(ErrorCode::NoClaim));
        assert_eq!(restake_rewards(&mut pos, &pool, now), Err(ErrorCode::NoClaim));
        assert_eq!(pos, before);
    }
}

#[test]
fn claim_error_order_and_guards() {
    let pool = daily_pool();
    let mut fresh = StakeInfo::new_record();
    assert_eq!(claim_rewards(&mut fresh, &pool, DAY), Err(ErrorCode::NotStaked));

    let mut done = staked_position(false);
    done.claim_cycles_passed = 30;
    assert_eq!(claim_rewards(&mut done, &pool, DAY), Err(ErrorCode::AlreadyClaimed));

    let mut late = staked_position(false);
    late.last_interaction_time = late.end_time + 1;
    assert_eq!(claim_rewards(&mut late, &pool, 40 * DAY), Err(ErrorCode::TimeOver));

    let mut busy = staked_position(false);
    busy.in_process = true;
    assert_eq!(claim_rewards(&mut busy, &pool, DAY), Err(ErrorCode::AlreadyInProcess));
}

#[test]
fn claim_with_no_accruable_reward_is_refused() {
    let pool = daily_pool();
    let mut pos = StakeInfo::new_record();
    // One smallest unit staked: the per-tick rate truncates to zero.
    let r = stake(&mut pos, &pool, aid(9), 1, 1, false, 0, 0, 0);
    assert_eq!(r, Ok(1));
    assert_eq!(claim_rewards(&mut pos, &pool, DAY), Err(ErrorCode::NoReward));
}

#[test]
fn claim_pays_out_leftover_unclaimed_rewards() {
    let pool = daily_pool();
    let mut pos = staked_position(false);
    pos.unclaimed_rewards = 500;
    let r = claim_rewards(&mut pos, &pool, DAY);
    assert_eq!(r, Ok(216000 + 500));
    assert_eq!(pos.unclaimed_rewards, 0);
    assert_eq!(pos.total_claimed, 216500);
}

#[test]
fn restake_grows_principal_like_a_claim() {
    let pool = daily_pool();
    let mut claimer = staked_position(false);
    let mut restaker = claimer;
    let claimed = claim_rewards(&mut claimer, &pool, DAY).unwrap();
    let restaked = restake_rewards(&mut restaker, &pool, DAY).unwrap();
    assert_eq!(claimed, restaked);
    assert_eq!(claimer.staked_amount, 1_000_000_000);
    assert_eq!(restaker.staked_amount, 1_000_000_000 + restaked);
    assert_eq!(restaker.unclaimed_rewards, claimer.unclaimed_rewards);
    assert_eq!(restaker.total_claimed, claimer.total_claimed);
    assert_eq!(restaker.claim_cycles_passed, claimer.claim_cycles_passed);
    assert_eq!(restaker.next_claim_time, claimer.next_claim_time);
    assert_eq!(restaker.last_interaction_time, claimer.last_interaction_time);
}

#[test]
fn destake_before_lock_expiry_always_fails() {
    let pool = daily_pool();
    for autostake in [false, true] {
        let mut pos = staked_position(autostake);
        pos.unclaimed_rewards = 12345;
        let before = pos;
        let almost = pos.end_time - 1;
        assert_eq!(
            destake(&mut pos, &pool, almost, 1_000_000_000),
            Err(ErrorCode::StillLocked)
        );
        assert_eq!(pos, before);
    }
}

#[test]
fn destake_returns_principal_and_resets() {
    let pool = daily_pool();
    let mut pos = staked_position(false);
    let r = destake(&mut pos, &pool, 30 * DAY, 1_000_000_000);
    assert_eq!(r, Ok((0, 1_000_000_000)));
    assert!(!pos.is_staked);
    assert_eq!(pos.staked_amount, 0);
    assert_eq!(pos.end_time, 0);
    assert_eq!(pos.unclaimed_rewards, 0);
    assert_eq!(pos.total_claimed, 0);
    assert_eq!(pos.next_claim_time, 0);
    assert_eq!(pos.total_claim_cycles, 0);
    assert_eq!(pos.claim_cycles_passed, 0);
    assert_eq!(pos.last_interaction_time, 30 * DAY);
    assert!(!pos.in_process);
    // The nonce stays burned after the position is reset.
    assert_eq!(pos.stake_seed, 1);
}

#[test]
fn destake_with_autostake_pays_compounded_reward() {
    let pool = daily_pool();
    let mut pos = staked_position(true);
    // The per-cycle reward stays at 216000 for all 30 cycles: the floored
    // per-tick rate is 1 throughout this principal range.
    let r = destake(&mut pos, &pool, 30 * DAY, 1_000_000_000);
    assert_eq!(r, Ok((30 * 216000, 1_000_000_000)));
    assert!(!pos.is_staked);
}

#[test]
fn destake_guards() {
    let pool = daily_pool();
    let mut fresh = StakeInfo::new_record();
    assert_eq!(destake(&mut fresh, &pool, 0, 0), Err(ErrorCode::NotStaked));
    let mut busy = staked_position(false);
    busy.in_process = true;
    assert_eq!(
        destake(&mut busy, &pool, 40 * DAY, 1_000_000_000),
        Err(ErrorCode::AlreadyInProcess)
    );
}

#[test]
fn update_pool_info_requires_admin() {
    let mut pool = daily_pool();
    let before = pool;
    assert_eq!(
        update_pool_info(&mut pool, aid(999), aid(4), aid(5), 7, 8, 9, 1, aid(6)),
        Err(ErrorCode::Unauthorized)
    );
    assert_eq!(pool, before);
    assert_eq!(
        update_pool_info(&mut pool, aid(1), aid(4), aid(5), 7, 8, 9, 1, aid(6)),
        Ok(())
    );
    assert_eq!(pool.admin, aid(4));
    assert_eq!(pool.token_vault, aid(5));
    assert_eq!(pool.lock_time, 7);
    assert_eq!(pool.apy, 8);
    assert_eq!(pool.apy_denominator, 9);
    assert_eq!(pool.roi_type, 1);
    assert_eq!(pool.token, aid(6));
}

#[test]
fn admin_withdraw_requires_admin() {
    let pool = daily_pool();
    assert_eq!(admin_withdraw(&pool, aid(1), 5000), Ok(5000));
    assert_eq!(admin_withdraw(&pool, aid(2), 5000), Err(ErrorCode::Unauthorized));
}

#[test]
fn claim_sequence_advances_cycle_by_cycle() {
    let pool = daily_pool();
    let mut pos = staked_position(false);
    assert_eq!(claim_rewards(&mut pos, &pool, DAY), Ok(216000));
    // Less than one further cycle: too early again.
    assert_eq!(claim_rewards(&mut pos, &pool, DAY + 100), Err(ErrorCode::Wait));
    assert_eq!(claim_rewards(&mut pos, &pool, 2 * DAY), Ok(216000));
    assert_eq!(pos.claim_cycles_passed, 2);
    assert_eq!(pos.total_claimed, 2 * 216000);
    assert_eq!(pos.last_interaction_time, 2 * DAY);
}

#[test]
fn claim_of_five_cycles_at_once() {
    let pool = daily_pool();
    let mut pos = staked_position(false);
    assert_eq!(claim_rewards(&mut pos, &pool, 5 * DAY), Ok(5 * 216000));
    assert_eq!(pos.claim_cycles_passed, 5);
    // The next claim window opens one cadence after the five just paid.
    assert_eq!(pos.next_claim_time, 6 * DAY);
}

#[test]
fn weekly_pool_schedule() {
    let week = 7 * DAY;
    let mut pool = daily_pool();
    pool.roi_type = 1;
    pool.lock_time = 4 * week;
    let mut pos = StakeInfo::new_record();
    assert_eq!(stake(&mut pos, &pool, aid(9), 1, 1000, false, 0, 0, 6), Ok(1_000_000_000));
    assert_eq!(pos.total_claim_cycles, 4);
    assert_eq!(pos.next_claim_time, week);
    // One week accrues seven days of per-tick rewards.
    assert_eq!(claim_rewards(&mut pos, &pool, week), Ok(7 * 216000));
}

#[test]
fn claim_at_exact_end_tick_is_allowed() {
    let pool = daily_pool();
    let mut pos = staked_position(false);
    pos.last_interaction_time = pos.end_time;
    let after_end = pos.end_time + DAY;
    // The window closes only once the last interaction lies beyond the end.
    assert_eq!(claim_rewards(&mut pos, &pool, after_end), Ok(216000));
}

#[test]
fn restake_then_destake_returns_grown_principal() {
    let pool = daily_pool();
    let mut pos = staked_position(false);
    let grown = restake_rewards(&mut pos, &pool, DAY).unwrap();
    assert_eq!(pos.staked_amount, 1_000_000_000 + grown);
    let principal = pos.staked_amount;
    let r = destake(&mut pos, &pool, 30 * DAY, principal);
    assert_eq!(r, Ok((0, principal)));
    assert_eq!(pos.staked_amount, 0);
}
