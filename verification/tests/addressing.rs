use aim_staking::addressing::{
    derive_platform_address, derive_project_address, derive_stake_address, derive_unstake_address,
    derive_vault_address, derive_vault_authority_address,
};

use anchor_lang::prelude::Pubkey;

const PROGRAM_ID: [u8; 32] = [41; 32];

#[test]
fn platform_address_matches_the_reference_derivation() {
    let ours = derive_platform_address(&PROGRAM_ID).unwrap();
    let program = Pubkey::new_from_array(PROGRAM_ID);
    let theirs = Pubkey::try_find_program_address(&[b"platform"], &program).unwrap();
    assert_eq!(ours.0, theirs.0.to_bytes());
    assert_eq!(ours.1, theirs.1);
}

#[test]
fn project_address_matches_the_reference_derivation() {
    let ours = derive_project_address(3, &PROGRAM_ID).unwrap();
    let program = Pubkey::new_from_array(PROGRAM_ID);
    let theirs =
        Pubkey::try_find_program_address(&[b"project", &3u64.to_le_bytes()], &program).unwrap();
    assert_eq!(ours.0, theirs.0.to_bytes());
    assert_eq!(ours.1, theirs.1);
}

#[test]
fn vault_addresses_match_the_reference_derivation() {
    let program = Pubkey::new_from_array(PROGRAM_ID);
    let vault = derive_vault_address(0, &PROGRAM_ID).unwrap();
    let expect =
        Pubkey::try_find_program_address(&[b"vault", &0u64.to_le_bytes()], &program).unwrap();
    assert_eq!(vault.0, expect.0.to_bytes());

    let authority = derive_vault_authority_address(0, &PROGRAM_ID).unwrap();
    let expect = Pubkey::try_find_program_address(
        &[b"vault-authority", &0u64.to_le_bytes()],
        &program,
    )
    .unwrap();
    assert_eq!(authority.0, expect.0.to_bytes());
    assert_eq!(authority.1, expect.1);
}

#[test]
fn stake_address_matches_the_reference_derivation() {
    let project = [7u8; 32];
    let user = [9u8; 32];
    let ours = derive_stake_address(&project, &user, 12, &PROGRAM_ID).unwrap();
    let program = Pubkey::new_from_array(PROGRAM_ID);
    let theirs = Pubkey::try_find_program_address(
        &[b"stake", &project, &user, &12u64.to_le_bytes()],
        &program,
    )
    .unwrap();
    assert_eq!(ours.0, theirs.0.to_bytes());
    assert_eq!(ours.1, theirs.1);
}

#[test]
fn unstake_address_matches_the_reference_derivation() {
    let stake = [13u8; 32];
    let ours = derive_unstake_address(&stake, &PROGRAM_ID).unwrap();
    let program = Pubkey::new_from_array(PROGRAM_ID);
    let theirs = Pubkey::try_find_program_address(&[b"unstake", &stake], &program).unwrap();
    assert_eq!(ours.0, theirs.0.to_bytes());
    assert_eq!(ours.1, theirs.1);
}

#[test]
fn identical_seeds_identical_address() {
    let a = derive_stake_address(&[7; 32], &[9; 32], 12, &PROGRAM_ID).unwrap();
    let b = derive_stake_address(&[7; 32], &[9; 32], 12, &PROGRAM_ID).unwrap();
    assert_eq!(a, b);
}

#[test]
fn different_records_land_at_different_addresses() {
    let stake_one = derive_stake_address(&[7; 32], &[9; 32], 1, &PROGRAM_ID).unwrap();
    let stake_two = derive_stake_address(&[7; 32], &[9; 32], 2, &PROGRAM_ID).unwrap();
    assert_ne!(stake_one.0, stake_two.0);

    let vault = derive_vault_address(0, &PROGRAM_ID).unwrap();
    let vault_authority = derive_vault_authority_address(0, &PROGRAM_ID).unwrap();
    assert_ne!(vault.0, vault_authority.0);

    let platform = derive_platform_address(&PROGRAM_ID).unwrap();
    assert_ne!(platform.0, PROGRAM_ID);
}
