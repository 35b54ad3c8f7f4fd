//! Deterministic sub-account derivation.
//!
//! Every custody account and position record lives at an address computed
//! from fixed tag strings, the relevant parent identifiers and a
//! disambiguating nonce, together with a bump seed that makes the derived
//! authority a non-signing account.  The seed serialization is verified
//! here; the hash itself is the host platform's derivation, reached
//! through one trusted wrapper.

use vstd::prelude::*;

use crate::account_id::AccountId;

verus! {

// ---------------------------------------------------------------------------
// seed serialization
// ---------------------------------------------------------------------------

/// The eight little-endian bytes of a 64-bit word.
pub open spec fn spec_word_le_bytes(w: u64) -> Seq<u8> {
    seq![
        w as u8,
        (w >> 8) as u8,
        (w >> 16) as u8,
        (w >> 24) as u8,
        (w >> 32) as u8,
        (w >> 40) as u8,
        (w >> 48) as u8,
        (w >> 56) as u8,
    ]
}

/// The 32-byte little-endian serialization of an identifier.
pub open spec fn spec_id_bytes(a: AccountId) -> Seq<u8> {
    spec_word_le_bytes(a.w0) + spec_word_le_bytes(a.w1) + spec_word_le_bytes(a.w2)
        + spec_word_le_bytes(a.w3)
}

/// Appends the eight little-endian bytes of `w`.
fn push_word_le(v: &mut Vec<u8>, w: u64)
    ensures
        final(v)@ == old(v)@ + spec_word_le_bytes(w),
{
    v.push(#[verifier::truncate] (w as u8));
    v.push(#[verifier::truncate] ((w >> 8) as u8));
    v.push(#[verifier::truncate] ((w >> 16) as u8));
    v.push(#[verifier::truncate] ((w >> 24) as u8));
    v.push(#[verifier::truncate] ((w >> 32) as u8));
    v.push(#[verifier::truncate] ((w >> 40) as u8));
    v.push(#[verifier::truncate] ((w >> 48) as u8));
    v.push(#[verifier::truncate] ((w >> 56) as u8));
    proof {
        assert(v@ =~= old(v)@ + spec_word_le_bytes(w));
    }
}

/// Serializes an identifier into its 32 little-endian bytes.
pub fn id_bytes(a: &AccountId) -> (r: Vec<u8>)
    ensures
        r@ == spec_id_bytes(*a),
{
    let mut v: Vec<u8> = Vec::new();
    push_word_le(&mut v, a.w0);
    push_word_le(&mut v, a.w1);
    push_word_le(&mut v, a.w2);
    push_word_le(&mut v, a.w3);
    proof {
        assert(v@ =~= spec_id_bytes(*a));
    }
    v
}

/// Serializes a stake nonce into its eight little-endian bytes.
pub fn nonce_bytes(n: u64) -> (r: Vec<u8>)
    ensures
        r@ == spec_word_le_bytes(n),
{
    let mut v: Vec<u8> = Vec::new();
    push_word_le(&mut v, n);
    v
}

/// The treasury-vault seed tag, "vault" in ASCII; the escrow wallet of the
/// distribution program uses the same tag.
pub open spec fn spec_vault_tag() -> Seq<u8> {
    seq![118u8, 97u8, 117u8, 108u8, 116u8]
}

fn vault_tag() -> (r: Vec<u8>)
    ensures
        r@ == spec_vault_tag(),
{
    let v: Vec<u8> = vec![118, 97, 117, 108, 116];
    proof {
        assert(v@ =~= spec_vault_tag());
    }
    v
}

/// The position-record seed tag, "stake_info" in ASCII.
pub open spec fn spec_stake_info_tag() -> Seq<u8> {
    seq![115u8, 116u8, 97u8, 107u8, 101u8, 95u8, 105u8, 110u8, 102u8, 111u8]
}

fn stake_info_tag() -> (r: Vec<u8>)
    ensures
        r@ == spec_stake_info_tag(),
{
    let v: Vec<u8> = vec![115, 116, 97, 107, 101, 95, 105, 110, 102, 111];
    proof {
        assert(v@ =~= spec_stake_info_tag());
    }
    v
}

/// The principal-vault seed tag, "token" in ASCII.
pub open spec fn spec_token_tag() -> Seq<u8> {
    seq![116u8, 111u8, 107u8, 101u8, 110u8]
}

fn token_tag() -> (r: Vec<u8>)
    ensures
        r@ == spec_token_tag(),
{
    let v: Vec<u8> = vec![116, 111, 107, 101, 110];
    proof {
        assert(v@ =~= spec_token_tag());
    }
    v
}

/// The distribution-record seed tag, "data_account" in ASCII.
pub open spec fn spec_data_account_tag() -> Seq<u8> {
    seq![100u8, 97u8, 116u8, 97u8, 95u8, 97u8, 99u8, 99u8, 111u8, 117u8, 110u8, 116u8]
}

fn data_account_tag() -> (r: Vec<u8>)
    ensures
        r@ == spec_data_account_tag(),
{
    let v: Vec<u8> = vec![100, 97, 116, 97, 95, 97, 99, 99, 111, 117, 110, 116];
    proof {
        assert(v@ =~= spec_data_account_tag());
    }
    v
}

// ---------------------------------------------------------------------------
// the derivation itself
// ---------------------------------------------------------------------------

/// The derived address and bump seed that the host platform computes for a
/// seed list under a program id, or nothing when no viable bump exists or
/// a seed breaks the derivation's limits.  The result depends on the seed
/// bytes and the program id alone.
pub uninterp spec fn derived_address(seeds: Seq<Seq<u8>>, program_id: Seq<u8>) -> Option<
    (Seq<u8>, u8),
>;

/// The views of a list of byte vectors.
pub open spec fn spec_seed_views(seeds: Seq<Vec<u8>>) -> Seq<Seq<u8>> {
    seeds.map_values(|s: Vec<u8>| s@)
}

/// Relies on solana_program's `Pubkey::try_find_program_address`: the
/// derived address and its bump depend only on the seed bytes and the
/// program id, and a derived address is 32 bytes.
#[verifier::external_body]
fn find_derived_address(seeds: &Vec<Vec<u8>>, program_id: &Vec<u8>) -> (r: Option<(Vec<u8>, u8)>)
    requires
        program_id@.len() == 32,
    ensures
        match r {
            Some(p) => derived_address(spec_seed_views(seeds@), program_id@) == Some((p.0@, p.1))
                && p.0@.len() == 32,
            None => derived_address(spec_seed_views(seeds@), program_id@) is None,
        },
{
    let mut arr = [0u8; 32];
    arr.copy_from_slice(program_id.as_slice());
    let pk = solana_program::pubkey::Pubkey::new_from_array(arr);
    let refs: Vec<&[u8]> = seeds.iter().map(|s| s.as_slice()).collect();
    solana_program::pubkey::Pubkey::try_find_program_address(&refs, &pk)
        .map(|(addr, bump)| (addr.to_bytes().to_vec(), bump))
}

/// Derives the pool treasury vault's address and signing bump.  The
/// vault's authority is the derived account itself.
pub fn derive_treasury_vault(program_id: &AccountId) -> (r: Option<(Vec<u8>, u8)>)
    ensures
        match r {
            Some(p) => derived_address(seq![spec_vault_tag()], spec_id_bytes(*program_id)) == Some(
                (p.0@, p.1),
            ) && p.0@.len() == 32,
            None => derived_address(seq![spec_vault_tag()], spec_id_bytes(*program_id)) is None,
        },
{
    let mut seeds: Vec<Vec<u8>> = Vec::new();
    seeds.push(vault_tag());
    let pid = id_bytes(program_id);
    proof {
        assert(spec_seed_views(seeds@) =~= seq![spec_vault_tag()]);
    }
    find_derived_address(&seeds, &pid)
}

/// Derives a position record's address from the stake nonce, the owner
/// and the pool.
pub fn derive_position_account(
    program_id: &AccountId,
    stake_counter: u64,
    owner: &AccountId,
    pool: &AccountId,
) -> (r: Option<(Vec<u8>, u8)>)
    ensures
        match r {
            Some(p) => derived_address(
                seq![
                    spec_word_le_bytes(stake_counter),
                    spec_stake_info_tag(),
                    spec_id_bytes(*owner),
                    spec_id_bytes(*pool),
                ],
                spec_id_bytes(*program_id),
            ) == Some((p.0@, p.1)) && p.0@.len() == 32,
            None => derived_address(
                seq![
                    spec_word_le_bytes(stake_counter),
                    spec_stake_info_tag(),
                    spec_id_bytes(*owner),
                    spec_id_bytes(*pool),
                ],
                spec_id_bytes(*program_id),
            ) is None,
        },
{
    let mut seeds: Vec<Vec<u8>> = Vec::new();
    seeds.push(nonce_bytes(stake_counter));
    seeds.push(stake_info_tag());
    seeds.push(id_bytes(owner));
    seeds.push(id_bytes(pool));
    let pid = id_bytes(program_id);
    proof {
        assert(spec_seed_views(seeds@) =~= seq![
            spec_word_le_bytes(stake_counter),
            spec_stake_info_tag(),
            spec_id_bytes(*owner),
            spec_id_bytes(*pool),
        ]);
    }
    find_derived_address(&seeds, &pid)
}

/// Derives a position's principal-vault address from the owner and the
/// pool.  The vault's authority is the derived account itself.
pub fn derive_principal_vault(program_id: &AccountId, owner: &AccountId, pool: &AccountId) -> (r:
    Option<(Vec<u8>, u8)>)
    ensures
        match r {
            Some(p) => derived_address(
                seq![spec_token_tag(), spec_id_bytes(*owner), spec_id_bytes(*pool)],
                spec_id_bytes(*program_id),
            ) == Some((p.0@, p.1)) && p.0@.len() == 32,
            None => derived_address(
                seq![spec_token_tag(), spec_id_bytes(*owner), spec_id_bytes(*pool)],
                spec_id_bytes(*program_id),
            ) is None,
        },
{
    let mut seeds: Vec<Vec<u8>> = Vec::new();
    seeds.push(token_tag());
    seeds.push(id_bytes(owner));
    seeds.push(id_bytes(pool));
    let pid = id_bytes(program_id);
    proof {
        assert(spec_seed_views(seeds@) =~= seq![
            spec_token_tag(),
            spec_id_bytes(*owner),
            spec_id_bytes(*pool),
        ]);
    }
    find_derived_address(&seeds, &pid)
}

/// Derives a distribution record's address from the round, claim type and
/// batch selectors and the value mint.
pub fn derive_data_account(
    program_id: &AccountId,
    round: u8,
    claim_type: u8,
    batch: u8,
    token_mint: &AccountId,
) -> (r: Option<(Vec<u8>, u8)>)
    ensures
        match r {
            Some(p) => derived_address(
                seq![
                    seq![round],
                    seq![claim_type],
                    seq![batch],
                    spec_data_account_tag(),
                    spec_id_bytes(*token_mint),
                ],
                spec_id_bytes(*program_id),
            ) == Some((p.0@, p.1)) && p.0@.len() == 32,
            None => derived_address(
                seq![
                    seq![round],
                    seq![claim_type],
                    seq![batch],
                    spec_data_account_tag(),
                    spec_id_bytes(*token_mint),
                ],
                spec_id_bytes(*program_id),
            ) is None,
        },
{
    let mut seeds: Vec<Vec<u8>> = Vec::new();
    let round_seed: Vec<u8> = vec![round];
    let claim_type_seed: Vec<u8> = vec![claim_type];
    let batch_seed: Vec<u8> = vec![batch];
    proof {
        assert(round_seed@ =~= seq![round]);
        assert(claim_type_seed@ =~= seq![claim_type]);
        assert(batch_seed@ =~= seq![batch]);
    }
    seeds.push(round_seed);
    seeds.push(claim_type_seed);
    seeds.push(batch_seed);
    seeds.push(data_account_tag());
    seeds.push(id_bytes(token_mint));
    let pid = id_bytes(program_id);
    proof {
        assert(spec_seed_views(seeds@) =~= seq![
            seq![round],
            seq![claim_type],
            seq![batch],
            spec_data_account_tag(),
            spec_id_bytes(*token_mint),
        ]);
    }
    find_derived_address(&seeds, &pid)
}

/// Derives the escrow wallet of a distribution record from the value mint
/// and the record's own derived address.
pub fn derive_escrow_wallet(
    program_id: &AccountId,
    token_mint: &AccountId,
    data_account: Vec<u8>,
) -> (r: Option<(Vec<u8>, u8)>)
    ensures
        match r {
            Some(p) => derived_address(
                seq![spec_vault_tag(), spec_id_bytes(*token_mint), data_account@],
                spec_id_bytes(*program_id),
            ) == Some((p.0@, p.1)) && p.0@.len() == 32,
            None => derived_address(
                seq![spec_vault_tag(), spec_id_bytes(*token_mint), data_account@],
                spec_id_bytes(*program_id),
            ) is None,
        },
{
    let mut seeds: Vec<Vec<u8>> = Vec::new();
    seeds.push(vault_tag());
    seeds.push(id_bytes(token_mint));
    seeds.push(data_account);
    let pid = id_bytes(program_id);
    proof {
        assert(spec_seed_views(seeds@) =~= seq![
            spec_vault_tag(),
            spec_id_bytes(*token_mint),
            data_account@,
        ]);
    }
    find_derived_address(&seeds, &pid)
}

} // verus!
