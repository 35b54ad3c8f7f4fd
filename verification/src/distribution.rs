//! The peer batch-distribution program: releases pre-allocated token
//! grants to a list of beneficiaries, with per-beneficiary block and claim
//! flags.  It shares the staking core's identifier and admin-authorization
//! conventions but has no cycle arithmetic.

use vstd::prelude::*;

use crate::account_id::AccountId;
use crate::units::{scale_amount, spec_pow10};

verus! {

/// One grant recipient and its status flags.
#[derive(Clone, Copy, PartialEq, Eq, Structural, Debug)]
pub struct Beneficiary {
    pub key: AccountId,
    /// Whole tokens allocated to this beneficiary.
    pub allocated_tokens: u64,
    pub is_claimed: bool,
    pub is_blocked: bool,
    /// Re-entrancy guard; false whenever no claim is mid-flight.
    pub in_process: bool,
}

/// The discrete error signals of the distribution program.
#[derive(Clone, Copy, PartialEq, Eq, Structural, Debug)]
pub enum ErrorCode {
    /// The caller is not the initializer of this distribution record.
    InvalidSender,
    /// The beneficiary is blocked, already served, or mid-claim.
    ClaimNotAllowed,
    /// The caller is not on the beneficiary list.
    BeneficiaryNotFound,
    /// A distribution with this batch number already exists here.
    IsBatched,
}

/// One distribution record: a batch of grants behind an escrow wallet.
#[derive(Debug)]
pub struct DataAccount {
    pub released: bool,
    pub round: u8,
    pub claim_type: u8,
    pub batch: u8,
    /// Whole tokens moved into escrow at initialization.
    pub token_amount: u64,
    pub initializer: AccountId,
    pub escrow_wallet: AccountId,
    pub token_mint: AccountId,
    pub beneficiaries: Vec<Beneficiary>,
    pub decimals: u8,
}

// ---------------------------------------------------------------------------
// finding a beneficiary
// ---------------------------------------------------------------------------

/// The first index at or after `i` whose beneficiary has the given key.
pub open spec fn spec_find_from(list: Seq<Beneficiary>, key: AccountId, i: int) -> Option<int>
    decreases list.len() - i,
{
    if i < 0 || i >= list.len() {
        None
    } else if list[i].key == key {
        Some(i)
    } else {
        spec_find_from(list, key, i + 1)
    }
}

/// The first index whose beneficiary has the given key.
pub open spec fn spec_find_beneficiary(list: Seq<Beneficiary>, key: AccountId) -> Option<int> {
    spec_find_from(list, key, 0)
}

/// Finds the first beneficiary with the given key.
fn find_beneficiary(list: &Vec<Beneficiary>, key: AccountId) -> (r: Option<usize>)
    ensures
        match r {
            Some(j) => spec_find_beneficiary(list@, key) == Some(j as int) && j < list@.len()
                && list@[j as int].key == key,
            None => spec_find_beneficiary(list@, key) is None,
        },
{
    let mut i: usize = 0;
    while i < list.len()
        invariant
            i <= list@.len(),
            spec_find_beneficiary(list@, key) == spec_find_from(list@, key, i as int),
        decreases list@.len() - i,
    {
        if list[i].key == key {
            return Some(i);
        }
        i = i + 1;
    }
    None
}

// ---------------------------------------------------------------------------
// initialize
// ---------------------------------------------------------------------------

/// Creates a distribution record: refuses a batch number this record
/// already carries, records the grant list and parameters, and returns the
/// scaled amount the runtime must move from the initializer's wallet into
/// escrow.
pub fn initialize(
    data: &mut DataAccount,
    round: u8,
    claim_type: u8,
    batch: u8,
    beneficiaries: Vec<Beneficiary>,
    amount: u64,
    decimals: u8,
    initializer: AccountId,
    escrow_wallet: AccountId,
    token_mint: AccountId,
) -> (r: Result<u64, ErrorCode>)
    requires
        old(data).batch != batch ==> spec_pow10(decimals as nat) <= u64::MAX && amount * spec_pow10(
            decimals as nat,
        ) <= u64::MAX,
    ensures
        old(data).batch == batch ==> r == Err::<u64, ErrorCode>(ErrorCode::IsBatched)
            && *final(data) == *old(data),
        old(data).batch != batch ==> {
            &&& r == Ok::<u64, ErrorCode>((amount * spec_pow10(decimals as nat)) as u64)
            &&& final(data).released == false
            &&& final(data).round == round
            &&& final(data).claim_type == claim_type
            &&& final(data).batch == batch
            &&& final(data).token_amount == amount
            &&& final(data).initializer == initializer
            &&& final(data).escrow_wallet == escrow_wallet
            &&& final(data).token_mint == token_mint
            &&& final(data).beneficiaries@ == beneficiaries@
            &&& final(data).decimals == decimals
        },
{
    if data.batch == batch {
        return Err(ErrorCode::IsBatched);
    }
    data.beneficiaries = beneficiaries;
    data.released = false;
    data.round = round;
    data.claim_type = claim_type;
    data.batch = batch;
    data.token_amount = amount;
    data.decimals = decimals;
    data.initializer = initializer;
    data.escrow_wallet = escrow_wallet;
    data.token_mint = token_mint;
    Ok(scale_amount(amount, decimals))
}

// ---------------------------------------------------------------------------
// release
// ---------------------------------------------------------------------------

/// Sets the admin release switch.  Only the initializer may call this.
pub fn release(data: &mut DataAccount, sender: AccountId, released: bool) -> (r: Result<
    (),
    ErrorCode,
>)
    ensures
        sender != old(data).initializer ==> r == Err::<(), ErrorCode>(ErrorCode::InvalidSender)
            && *final(data) == *old(data),
        sender == old(data).initializer ==> r == Ok::<(), ErrorCode>(()) && final(data).released
            == released && final(data).beneficiaries@ == old(data).beneficiaries@ && *final(data)
            == (DataAccount { released, ..*old(data) }),
{
    if sender != data.initializer {
        return Err(ErrorCode::InvalidSender);
    }
    data.released = released;
    Ok(())
}

// ---------------------------------------------------------------------------
// update_user_status / update_bulk_user_status
// ---------------------------------------------------------------------------

/// Sets the block flag of the first beneficiary with the given wallet key.
/// Only the initializer may call this.
pub fn update_user_status(
    data: &mut DataAccount,
    sender: AccountId,
    user_wallet: AccountId,
    blocked: bool,
) -> (r: Result<(), ErrorCode>)
    ensures
        sender != old(data).initializer ==> r == Err::<(), ErrorCode>(ErrorCode::InvalidSender)
            && *final(data) == *old(data),
        sender == old(data).initializer ==> match spec_find_beneficiary(
            old(data).beneficiaries@,
            user_wallet,
        ) {
            Some(i) => r == Ok::<(), ErrorCode>(())
                && final(data).beneficiaries@ == old(data).beneficiaries@.update(
                i,
                Beneficiary { is_blocked: blocked, ..old(data).beneficiaries@[i] },
            ) && *final(data) == (DataAccount {
                beneficiaries: final(data).beneficiaries,
                ..*old(data)
            }),
            None => r == Err::<(), ErrorCode>(ErrorCode::BeneficiaryNotFound) && *final(data)
                == *old(data),
        },
{
    if sender != data.initializer {
        return Err(ErrorCode::InvalidSender);
    }
    let index = match find_beneficiary(&data.beneficiaries, user_wallet) {
        Some(i) => i,
        None => { return Err(ErrorCode::BeneficiaryNotFound) },
    };
    let mut b = data.beneficiaries[index];
    b.is_blocked = blocked;
    data.beneficiaries[index] = b;
    Ok(())
}

/// The beneficiary list with every not-yet-served entry's block flag set
/// to `blocked`.
pub open spec fn spec_bulk_updated(list: Seq<Beneficiary>, blocked: bool) -> Seq<Beneficiary> {
    list.map(
        |i: int, b: Beneficiary|
            if !b.is_claimed {
                Beneficiary { is_blocked: blocked, ..b }
            } else {
                b
            },
    )
}

/// Sets the block flag of every beneficiary that has not claimed yet.
/// Only the initializer may call this.
pub fn update_bulk_user_status(data: &mut DataAccount, sender: AccountId, blocked: bool) -> (r:
    Result<(), ErrorCode>)
    ensures
        sender != old(data).initializer ==> r == Err::<(), ErrorCode>(ErrorCode::InvalidSender)
            && *final(data) == *old(data),
        sender == old(data).initializer ==> r == Ok::<(), ErrorCode>(())
            && final(data).beneficiaries@ == spec_bulk_updated(old(data).beneficiaries@, blocked)
            && *final(data)
            == (DataAccount { beneficiaries: final(data).beneficiaries, ..*old(data) }),
{
    if sender != data.initializer {
        return Err(ErrorCode::InvalidSender);
    }
    let ghost orig = data.beneficiaries@;
    let mut i: usize = 0;
    while i < data.beneficiaries.len()
        invariant
            i <= data.beneficiaries@.len(),
            data.beneficiaries@.len() == orig.len(),
            forall|k: int|
                0 <= k < i ==> data.beneficiaries@[k] == spec_bulk_updated(orig, blocked)[k],
            forall|k: int| i <= k < orig.len() ==> data.beneficiaries@[k] == orig[k],
            *data == (DataAccount { beneficiaries: data.beneficiaries, ..*old(data) }),
        decreases orig.len() - i,
    {
        let mut b = data.beneficiaries[i];
        if !b.is_claimed {
            b.is_blocked = blocked;
            data.beneficiaries[i] = b;
        }
        i = i + 1;
    }
    proof {
        assert(data.beneficiaries@ =~= spec_bulk_updated(orig, blocked));
    }
    Ok(())
}

// ---------------------------------------------------------------------------
// withdraw_from_escrow
// ---------------------------------------------------------------------------

/// The whole-token total allocated to blocked beneficiaries.
pub open spec fn spec_blocked_sum(list: Seq<Beneficiary>) -> int
    decreases list.len(),
{
    if list.len() == 0 {
        0
    } else {
        spec_blocked_sum(list.drop_last()) + if list.last().is_blocked {
            list.last().allocated_tokens as int
        } else {
            0
        }
    }
}

pub proof fn lemma_blocked_sum_prefix(list: Seq<Beneficiary>, i: int)
    requires
        0 <= i <= list.len(),
    ensures
        0 <= spec_blocked_sum(list.take(i)),
        spec_blocked_sum(list.take(i)) <= spec_blocked_sum(list),
    decreases list.len() - i,
{
    lemma_blocked_sum_nonneg(list);
    lemma_blocked_sum_nonneg(list.take(i));
    if i == 0 {
        assert(list.take(0).len() == 0);
    } else if i == list.len() {
        assert(list.take(i) =~= list);
    } else {
        lemma_blocked_sum_prefix(list, i + 1);
        assert(list.take(i + 1).drop_last() =~= list.take(i));
        assert(spec_blocked_sum(list.take(i)) <= spec_blocked_sum(list.take(i + 1)));
    }
}

pub proof fn lemma_blocked_sum_nonneg(list: Seq<Beneficiary>)
    ensures
        0 <= spec_blocked_sum(list),
    decreases list.len(),
{
    if list.len() > 0 {
        lemma_blocked_sum_nonneg(list.drop_last());
    }
}

/// Sweeps the grants of every blocked beneficiary back out of escrow:
/// returns the scaled amount the runtime must transfer to the
/// initializer's wallet.  Only the initializer may call this.
pub fn withdraw_from_escrow(data: &DataAccount, sender: AccountId) -> (r: Result<u64, ErrorCode>)
    requires
        sender == data.initializer ==> spec_pow10(data.decimals as nat) <= u64::MAX
            && spec_blocked_sum(data.beneficiaries@) * spec_pow10(data.decimals as nat)
            <= u64::MAX,
    ensures
        sender != data.initializer ==> r == Err::<u64, ErrorCode>(ErrorCode::InvalidSender),
        sender == data.initializer ==> r == Ok::<u64, ErrorCode>(
            (spec_blocked_sum(data.beneficiaries@) * spec_pow10(data.decimals as nat)) as u64,
        ),
{
    if sender != data.initializer {
        return Err(ErrorCode::InvalidSender);
    }
    let list = &data.beneficiaries;
    let mut sum: u64 = 0;
    let mut i: usize = 0;
    proof {
        lemma_blocked_sum_nonneg(data.beneficiaries@);
        crate::units::lemma_pow10_monotone(data.decimals as nat, data.decimals as nat);
        vstd::arithmetic::mul::lemma_mul_inequality(
            1,
            spec_pow10(data.decimals as nat),
            spec_blocked_sum(data.beneficiaries@),
        );
    }
    while i < list.len()
        invariant
            i <= list@.len(),
            sum == spec_blocked_sum(list@.take(i as int)),
            spec_blocked_sum(list@) <= u64::MAX,
        decreases list@.len() - i,
    {
        proof {
            lemma_blocked_sum_prefix(list@, i + 1);
            assert(list@.take(i + 1).drop_last() =~= list@.take(i as int));
        }
        if list[i].is_blocked {
            sum = sum + list[i].allocated_tokens;
        }
        i = i + 1;
    }
    proof {
        assert(list@.take(list@.len() as int) =~= list@);
    }
    Ok(scale_amount(sum, data.decimals))
}

// ---------------------------------------------------------------------------
// claim
// ---------------------------------------------------------------------------

/// Pays the caller's grant out of escrow: finds the caller on the
/// beneficiary list, refuses a blocked, already-served or mid-claim entry,
/// marks the entry claimed, and returns the scaled amount the runtime must
/// transfer from escrow to the caller's wallet.
pub fn claim(data: &mut DataAccount, sender: AccountId) -> (r: Result<u64, ErrorCode>)
    requires
        match spec_find_beneficiary(old(data).beneficiaries@, sender) {
            Some(i) => {
                let b = old(data).beneficiaries@[i];
                !b.in_process && !b.is_claimed && !b.is_blocked ==> spec_pow10(
                    old(data).decimals as nat,
                ) <= u64::MAX && b.allocated_tokens * spec_pow10(old(data).decimals as nat)
                    <= u64::MAX
            },
            None => true,
        },
    ensures
        match spec_find_beneficiary(old(data).beneficiaries@, sender) {
            None => r == Err::<u64, ErrorCode>(ErrorCode::BeneficiaryNotFound) && *final(data)
                == *old(data),
            Some(i) => {
                let b = old(data).beneficiaries@[i];
                if b.in_process || b.is_claimed || b.is_blocked {
                    r == Err::<u64, ErrorCode>(ErrorCode::ClaimNotAllowed) && *final(data) == *old(
                        data,
                    )
                } else {
                    r == Ok::<u64, ErrorCode>(
                        (b.allocated_tokens * spec_pow10(old(data).decimals as nat)) as u64,
                    ) && final(data).beneficiaries@ == old(data).beneficiaries@.update(
                        i,
                        Beneficiary { is_claimed: true, in_process: false, ..b },
                    ) && *final(data) == (DataAccount {
                        beneficiaries: final(data).beneficiaries,
                        ..*old(data)
                    })
                }
            },
        },
{
    let index = match find_beneficiary(&data.beneficiaries, sender) {
        Some(i) => i,
        None => { return Err(ErrorCode::BeneficiaryNotFound) },
    };
    let mut b = data.beneficiaries[index];
    if b.in_process || b.is_claimed || b.is_blocked {
        return Err(ErrorCode::ClaimNotAllowed);
    }
    let amount = scale_amount(b.allocated_tokens, data.decimals);
    b.is_claimed = true;
    b.in_process = false;
    data.beneficiaries[index] = b;
    Ok(amount)
}

} // verus!
