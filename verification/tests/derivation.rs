use solana_program::pubkey::Pubkey;
use staking_program::account_id::AccountId;
use staking_program::addressing::{
    derive_data_account, derive_escrow_wallet, derive_position_account, derive_principal_vault,
    derive_treasury_vault, id_bytes, nonce_bytes,
};

fn aid(n: u64) -> AccountId {
    AccountId { w0: n, w1: n ^ 0x5555, w2: 3 * n, w3: n + 9 }
}

fn as_pubkey(a: &AccountId) -> Pubkey {
    let bytes = id_bytes(a);
    let mut arr = [0u8; 32];
    arr.copy_from_slice(&bytes);
    Pubkey::new_from_array(arr)
}

#[test]
fn id_bytes_is_little_endian() {
    let a = AccountId { w0: 0x0102030405060708, w1: 0, w2: 0, w3: u64::MAX };
    let b = id_bytes(&a);
    assert_eq!(b.len(), 32);
    assert_eq!(&b[0..8], &[8, 7, 6, 5, 4, 3, 2, 1]);
    assert_eq!(&b[8..16], &[0; 8]);
    assert_eq!(&b[24..32], &[255; 8]);
    assert_eq!(nonce_bytes(1), vec![1, 0, 0, 0, 0, 0, 0, 0]);
}

#[test]
fn treasury_vault_matches_platform_derivation() {
    let program = aid(1);
    let (addr, bump) = derive_treasury_vault(&program).unwrap();
    let expected =
        Pubkey::try_find_program_address(&[b"vault"], &as_pubkey(&program)).unwrap();
    assert_eq!(addr, expected.0.to_bytes().to_vec());
    assert_eq!(bump, expected.1);
}

#[test]
fn position_account_matches_platform_derivation() {
    let program = aid(1);
    let owner = aid(2);
    let pool = aid(3);
    let (addr, bump) = derive_position_account(&program, 5, &owner, &pool).unwrap();
    let expected = Pubkey::try_find_program_address(
        &[
            &5u64.to_le_bytes(),
            b"stake_info",
            as_pubkey(&owner).as_ref(),
            as_pubkey(&pool).as_ref(),
        ],
        &as_pubkey(&program),
    )
    .unwrap();
    assert_eq!(addr, expected.0.to_bytes().to_vec());
    assert_eq!(bump, expected.1);
}

#[test]
fn principal_vault_matches_platform_derivation() {
    let program = aid(1);
    let owner = aid(2);
    let pool = aid(3);
    let (addr, bump) = derive_principal_vault(&program, &owner, &pool).unwrap();
    let expected = Pubkey::try_find_program_address(
        &[b"token", as_pubkey(&owner).as_ref(), as_pubkey(&pool).as_ref()],
        &as_pubkey(&program),
    )
    .unwrap();
    assert_eq!(addr, expected.0.to_bytes().to_vec());
    assert_eq!(bump, expected.1);
}

#[test]
fn distribution_accounts_match_platform_derivation() {
    let program = aid(7);
    let mint = aid(8);
    let (data_addr, data_bump) = derive_data_account(&program, 2, 1, 9, &mint).unwrap();
    let expected_data = Pubkey::try_find_program_address(
        &[&[2u8], &[1u8], &[9u8], b"data_account", as_pubkey(&mint).as_ref()],
        &as_pubkey(&program),
    )
    .unwrap();
    assert_eq!(data_addr, expected_data.0.to_bytes().to_vec());
    assert_eq!(data_bump, expected_data.1);

    let (escrow_addr, escrow_bump) =
        derive_escrow_wallet(&program, &mint, data_addr.clone()).unwrap();
    let expected_escrow = Pubkey::try_find_program_address(
        &[b"vault", as_pubkey(&mint).as_ref(), &data_addr],
        &as_pubkey(&program),
    )
    .unwrap();
    assert_eq!(escrow_addr, expected_escrow.0.to_bytes().to_vec());
    assert_eq!(escrow_bump, expected_escrow.1);
}

#[test]
fn derivation_is_deterministic_and_input_sensitive() {
    let program = aid(1);
    let first = derive_treasury_vault(&program).unwrap();
    let again = derive_treasury_vault(&program).unwrap();
    assert_eq!(first, again);
    let other_program = derive_treasury_vault(&aid(2)).unwrap();
    assert_ne!(first.0, other_program.0);
    let pos_a = derive_position_account(&program, 1, &aid(2), &aid(3)).unwrap();
    let pos_b = derive_position_account(&program, 2, &aid(2), &aid(3)).unwrap();
    assert_ne!(pos_a.0, pos_b.0);
}
