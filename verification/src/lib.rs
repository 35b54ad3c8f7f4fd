//! Custody and incentive-accrual logic for a time-locked deposit program.
//!
//! A participant locks fungible value for a fixed duration in exchange for
//! periodic payouts computed from an annual rate and a payout cadence.  The
//! library holds the reward arithmetic, the stake lifecycle state machine,
//! the admin rules, the deterministic sub-account derivation, and the peer
//! batch-distribution bookkeeping, all as verified functions over plain
//! values.  The surrounding runtime performs the actual value transfers with
//! the amounts these functions return.

pub mod account_id;
pub mod addressing;
pub mod admin;
pub mod constants;
pub mod distribution;
pub mod errors;
pub mod laws;
pub mod lifecycle;
pub mod pool;
pub mod position;
pub mod rewards;
pub mod units;
