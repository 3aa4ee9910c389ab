use anchor_escrow::address::{
    derive_escrow_address, find_associated_address, find_escrow_address,
};
use anchor_escrow::Address;
use anchor_lang::prelude::Pubkey;

fn key(n: u8) -> Address {
    Address::new([n; 32])
}

#[test]
fn escrow_address_is_the_program_address_of_its_seeds() {
    let program = key(9);
    let maker = key(1);
    let seed: u64 = 7;
    let (expected, expected_bump) = Pubkey::find_program_address(
        &[b"escrow", &[1u8; 32], &seed.to_le_bytes()],
        &Pubkey::new_from_array([9u8; 32]),
    );
    let (found, bump) = find_escrow_address(&program, &maker, seed).unwrap();
    assert_eq!(found.bytes, expected.to_bytes());
    assert_eq!(bump, expected_bump);
    assert_ne!(found, maker);
    assert_ne!(found, program);
}

#[test]
fn stored_bump_derives_the_same_address() {
    let program = key(9);
    let maker = key(1);
    let (found, bump) = find_escrow_address(&program, &maker, 7).unwrap();
    assert_eq!(derive_escrow_address(&program, &maker, 7, bump), Some(found));
    let other = derive_escrow_address(&program, &maker, 8, bump);
    assert_ne!(other, Some(found));
}

#[test]
fn associated_address_matches_the_token_crate() {
    let wallet = key(3);
    let mint = key(4);
    let token_program = Address::new(anchor_spl::token::ID.to_bytes());
    let associated_program = Address::new(anchor_spl::associated_token::ID.to_bytes());
    let expected = anchor_spl::associated_token::get_associated_token_address_with_program_id(
        &Pubkey::new_from_array([3u8; 32]),
        &Pubkey::new_from_array([4u8; 32]),
        &anchor_spl::token::ID,
    );
    let found = find_associated_address(&associated_program, &wallet, &token_program, &mint);
    assert_eq!(found, Some(Address::new(expected.to_bytes())));
}
