//! Cadence lengths, expressed in ticks of the host's monotonic clock.

use vstd::prelude::*;

verus! {

pub const SLOTS_PER_DAY: u64 = 216000;

pub const SLOTS_PER_WEEK: u64 = SLOTS_PER_DAY * 7;

pub const SLOTS_PER_MONTH: u64 = SLOTS_PER_DAY * 30;

/// The time base of the annual rate.
pub const SLOTS_PER_YEAR: u64 = SLOTS_PER_DAY * 365;

} // verus!
