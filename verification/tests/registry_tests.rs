use affiliate_market::address::Address;
use affiliate_market::error::ErrorCode;
use affiliate_market::registry::{create_campaign_instruction, CampaignRegistry};

fn addr(n: u8) -> Address {
    Address::new([n; 32])
}

#[test]
fn create_campaign_rejects_invalid_fee() {
    let mut registry = CampaignRegistry::new(addr(1));
    let r = registry.create_campaign(&addr(2), &addr(3), 1000, 10001, 10);
    assert_eq!(r, Err(ErrorCode::InvalidFee));
    assert_eq!(registry.len(), 0);
}

#[test]
fn create_campaign_accepts_boundary_fee() {
    let mut registry = CampaignRegistry::new(addr(1));
    let r = registry.create_campaign(&addr(2), &addr(3), 1000, 10000, 10);
    assert!(r.is_ok());
    assert_eq!(registry.len(), 1);
}

#[test]
fn create_campaign_initializes_fields() {
    let mut registry = CampaignRegistry::new(addr(1));
    let campaign = registry
        .create_campaign(&addr(2), &addr(3), 1000, 500, 10)
        .unwrap();
    assert_eq!(campaign.creator, addr(2));
    assert_eq!(campaign.collection_mint, addr(3));
    assert_eq!(campaign.price, 1000);
    assert_eq!(campaign.affiliate_fee_bps, 500);
    assert_eq!(campaign.minted, 0);
    assert_eq!(campaign.max_supply, 10);
}

#[test]
fn create_campaign_rejects_duplicate_collection() {
    let mut registry = CampaignRegistry::new(addr(1));
    registry
        .create_campaign(&addr(2), &addr(3), 1000, 500, 10)
        .unwrap();
    let second = registry.create_campaign(&addr(4), &addr(3), 2000, 100, 5);
    assert_eq!(second, Err(ErrorCode::CampaignAlreadyExists));
    assert_eq!(registry.len(), 1);
}

#[test]
fn find_campaign_locates_records() {
    let mut registry = CampaignRegistry::new(addr(1));
    registry
        .create_campaign(&addr(2), &addr(3), 1000, 500, 10)
        .unwrap();
    registry
        .create_campaign(&addr(2), &addr(4), 2000, 100, 5)
        .unwrap();
    let i = registry.find_campaign(&addr(4)).unwrap();
    assert_eq!(registry.campaign_at(i).collection_mint, addr(4));
    assert!(registry.find_campaign(&addr(5)).is_none());
}

#[test]
fn stored_bumps_rederive_authorities() {
    let program_id = addr(1);
    let campaign = create_campaign_instruction(&addr(2), &addr(3), 1000, 500, 10, &program_id)
        .unwrap();
    let key = affiliate_market::workflow::campaign_key(&addr(3), &program_id);
    let seeds = affiliate_market::seeds::build_mint_auth_seeds(&key);
    let (authority, bump) = affiliate_market::authority::derive_authority(&seeds, &program_id);
    assert_eq!(campaign.mint_authority_bump, bump);
    assert!(affiliate_market::authority::verify_authority(
        &authority,
        affiliate_market::seeds::build_mint_auth_seeds(&key),
        campaign.mint_authority_bump,
        &program_id
    ));
}
