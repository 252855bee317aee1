use affiliate_market::address::Address;
use affiliate_market::authority::{derive_authority, verify_authority};
use affiliate_market::seeds::{build_campaign_seeds, build_mint_auth_seeds};
use affiliate_market::workflow::campaign_key;

fn addr(n: u8) -> Address {
    Address::new([n; 32])
}

#[test]
fn derive_then_verify_roundtrip() {
    let owner = addr(7);
    let campaign = addr(9);
    let seeds = build_mint_auth_seeds(&campaign);
    let (authority, bump) = derive_authority(&seeds, &owner);
    assert!(verify_authority(
        &authority,
        build_mint_auth_seeds(&campaign),
        bump,
        &owner
    ));
}

#[test]
fn verify_rejects_wrong_candidate() {
    let owner = addr(7);
    let campaign = addr(9);
    let seeds = build_mint_auth_seeds(&campaign);
    let (authority, bump) = derive_authority(&seeds, &owner);
    let mut wrong = authority.bytes;
    wrong[0] = wrong[0].wrapping_add(1);
    assert!(!verify_authority(
        &Address::new(wrong),
        build_mint_auth_seeds(&campaign),
        bump,
        &owner
    ));
}

#[test]
fn verify_rejects_wrong_owner() {
    let owner = addr(7);
    let campaign = addr(9);
    let seeds = build_mint_auth_seeds(&campaign);
    let (authority, bump) = derive_authority(&seeds, &owner);
    assert!(!verify_authority(
        &authority,
        build_mint_auth_seeds(&campaign),
        bump,
        &addr(8)
    ));
}

#[test]
fn derivation_matches_host_library() {
    let owner = addr(7);
    let collection = addr(9);
    let seeds = build_campaign_seeds(&collection);
    let (derived, bump) = derive_authority(&seeds, &owner);
    let (expected, expected_bump) = solana_program::pubkey::Pubkey::find_program_address(
        &[b"campaign", &[9u8; 32]],
        &solana_program::pubkey::Pubkey::new_from_array([7u8; 32]),
    );
    assert_eq!(derived.bytes, expected.to_bytes());
    assert_eq!(bump, expected_bump);
}

#[test]
fn campaign_key_matches_host_library() {
    let owner = addr(1);
    let collection = addr(3);
    let key = campaign_key(&collection, &owner);
    let (expected, _) = solana_program::pubkey::Pubkey::find_program_address(
        &[b"campaign", &[3u8; 32]],
        &solana_program::pubkey::Pubkey::new_from_array([1u8; 32]),
    );
    assert_eq!(key.bytes, expected.to_bytes());
}

#[test]
fn derived_address_is_not_a_seed_echo() {
    let owner = addr(7);
    let collection = addr(9);
    let seeds = build_campaign_seeds(&collection);
    let (derived, _) = derive_authority(&seeds, &owner);
    assert_ne!(derived.bytes, owner.bytes);
    assert_ne!(derived.bytes, collection.bytes);
}
