//! Shares in basis points, and program addresses.
use launchpad::errors::LaunchpadError;
use launchpad::fees::{apply_bps, calculate_migration_fee};
use launchpad::pubkey::{
    address_with_bump, find_address, is_native_mint, tag_address_with_bump, Pubkey,
};

fn key(n: u8) -> Pubkey {
    Pubkey { bytes: [n; 32] }
}

fn anchor_key(key: &Pubkey) -> anchor_lang::prelude::Pubkey {
    anchor_lang::prelude::Pubkey::new_from_array(key.bytes)
}

#[test]
fn shares_round_down() {
    assert_eq!(apply_bps(1_000_000, 8000), Ok(800_000));
    assert_eq!(apply_bps(9_999, 1), Ok(0));
    assert_eq!(apply_bps(10_001, 1800), Ok(1_800));
    assert_eq!(apply_bps(0, 10_000), Ok(0));
    assert_eq!(apply_bps(u64::MAX, 10_000), Ok(u64::MAX));
    assert_eq!(apply_bps(u64::MAX, 8000), Ok(14_757_395_258_967_641_292));
}

#[test]
fn share_above_the_whole_may_not_fit() {
    assert_eq!(apply_bps(100, 20_000), Ok(200));
    assert_eq!(apply_bps(u64::MAX, 10_001), Err(LaunchpadError::CastOverflow));
}

#[test]
fn fee_and_rest_make_the_amount() {
    assert_eq!(calculate_migration_fee(85_000_000_123, 100), Ok((850_000_001, 84_150_000_122)));
    assert_eq!(calculate_migration_fee(7, 10_000), Ok((7, 0)));
    assert_eq!(calculate_migration_fee(10_000, 10_001), Err(LaunchpadError::MathUnderflow));
    assert_eq!(calculate_migration_fee(u64::MAX, u16::MAX), Err(LaunchpadError::CastOverflow));
}

#[test]
fn keys_compare_by_their_bytes() {
    let mut other = key(3);
    assert_eq!(key(3), other);
    other.bytes[31] = 4;
    assert_ne!(key(3), other);
}

#[test]
fn found_address_is_the_programs() {
    let (mint, program) = (key(7), key(9));
    let (found, bump) = find_address(b"bonding_sol_vault", &mint, &program).unwrap();
    let (expected, expected_bump) = anchor_lang::prelude::Pubkey::find_program_address(
        &[b"bonding_sol_vault", &mint.bytes],
        &anchor_key(&program),
    );
    assert_eq!(anchor_key(&found), expected);
    assert_eq!(bump, expected_bump);
    assert_eq!(address_with_bump(b"bonding_sol_vault", &mint, bump, &program), Some(found));
}

#[test]
fn found_bump_is_the_highest() {
    for n in 0..32u8 {
        let (found, bump) = find_address(b"buyback", &key(n), &key(200)).unwrap();
        assert!(bump >= 1);
        assert_eq!(address_with_bump(b"buyback", &key(n), bump, &key(200)), Some(found));
        for higher in bump..255 {
            assert_eq!(address_with_bump(b"buyback", &key(n), higher + 1, &key(200)), None);
        }
    }
}

#[test]
fn address_depends_on_every_seed() {
    let (found, bump) = find_address(b"buyback", &key(1), &key(2)).unwrap();
    assert_ne!(find_address(b"buybacks", &key(1), &key(2)), Some((found, bump)));
    assert_ne!(find_address(b"buyback", &key(3), &key(2)), Some((found, bump)));
    assert_ne!(find_address(b"buyback", &key(1), &key(3)), Some((found, bump)));
}

#[test]
fn one_seed_address_is_the_programs() {
    let program = key(11);
    let (expected, bump) = anchor_lang::prelude::Pubkey::find_program_address(
        &[b"config"],
        &anchor_key(&program),
    );
    let found = tag_address_with_bump(b"config", bump, &program).unwrap();
    assert_eq!(anchor_key(&found), expected);
}

#[test]
fn seeds_that_are_too_long_give_no_address() {
    let long = [1u8; 33];
    assert_eq!(address_with_bump(&long, &key(1), 255, &key(2)), None);
    assert_eq!(tag_address_with_bump(&long, 255, &key(2)), None);
    assert_eq!(find_address(&long, &key(1), &key(2)), None);
}

#[test]
fn native_mint_is_wrapped_sol() {
    let bytes: [u8; 32] = [
        6, 155, 136, 87, 254, 171, 129, 132, 251, 104, 127, 99, 70, 24, 192, 53, 218, 196, 57, 220,
        26, 235, 59, 85, 152, 160, 240, 0, 0, 0, 0, 1,
    ];
    assert!(is_native_mint(&Pubkey { bytes }));
    assert_eq!(
        anchor_lang::prelude::Pubkey::new_from_array(bytes).to_string(),
        "So11111111111111111111111111111111111111112"
    );
    assert!(!is_native_mint(&key(6)));
}
