use affiliate_market::address::Address;
use affiliate_market::error::ErrorCode;
use affiliate_market::payment::total_paid_to;
use affiliate_market::registry::create_campaign_instruction;
use affiliate_market::state::{AffiliateStats, Campaign};
use affiliate_market::workflow::{
    campaign_key, canonical_edition_address, canonical_metadata_address, expected_mint_address,
    process_mint, validate_accounts, MintReceipt, ProcessMint,
};

fn addr(n: u8) -> Address {
    Address::new([n; 32])
}

fn program_id() -> Address {
    addr(1)
}

fn creator() -> Address {
    addr(2)
}

fn collection() -> Address {
    addr(3)
}

fn registry_program() -> Address {
    addr(4)
}

fn buyer() -> Address {
    addr(5)
}

fn new_campaign(max_supply: u64) -> Campaign {
    create_campaign_instruction(&creator(), &collection(), 1000, 500, max_supply, &program_id())
        .unwrap()
}

fn accounts_for(campaign: &Campaign) -> ProcessMint {
    let mpl = registry_program();
    let mint = expected_mint_address(campaign, &program_id());
    ProcessMint {
        buyer: buyer(),
        nft_mint: mint,
        metadata: canonical_metadata_address(&mpl, &mint),
        master_edition: canonical_edition_address(&mpl, &mint),
        collection_metadata: canonical_metadata_address(&mpl, &collection()),
        collection_master_edition: canonical_edition_address(&mpl, &collection()),
        token_metadata_program: mpl,
    }
}

fn mint_once(
    campaign: &mut Campaign,
    stats: &mut Option<AffiliateStats>,
    accounts: &ProcessMint,
    affiliate: Option<Address>,
) -> Result<MintReceipt, ErrorCode> {
    process_mint(
        campaign,
        stats,
        accounts,
        affiliate,
        "Collectible".to_string(),
        "COLL".to_string(),
        "https://example.invalid/token.json".to_string(),
        &program_id(),
    )
}

#[test]
fn first_mint_with_affiliate_splits_payment() {
    let affiliate = addr(6);
    let mut campaign = new_campaign(1);
    let mut stats: Option<AffiliateStats> = None;
    let accounts = accounts_for(&campaign);
    let receipt = mint_once(&mut campaign, &mut stats, &accounts, Some(affiliate)).unwrap();
    assert_eq!(total_paid_to(&receipt.payments, &affiliate), 50);
    assert_eq!(total_paid_to(&receipt.payments, &creator()), 950);
    assert_eq!(campaign.minted, 1);
    let s = stats.unwrap();
    assert_eq!(s.total_mints, 1);
    assert_eq!(s.total_earned, 50);
}

#[test]
fn second_mint_fails_sold_out() {
    let affiliate = addr(6);
    let mut campaign = new_campaign(1);
    let mut stats: Option<AffiliateStats> = None;
    let accounts = accounts_for(&campaign);
    mint_once(&mut campaign, &mut stats, &accounts, Some(affiliate)).unwrap();
    let again = accounts_for(&campaign);
    let r = mint_once(&mut campaign, &mut stats, &again, Some(affiliate));
    assert!(matches!(r, Err(ErrorCode::SoldOut)));
    assert_eq!(campaign.minted, 1);
    let s = stats.unwrap();
    assert_eq!(s.total_mints, 1);
    assert_eq!(s.total_earned, 50);
}

#[test]
fn mint_without_affiliate_pays_creator_fully() {
    let mut campaign = new_campaign(1);
    let mut stats: Option<AffiliateStats> = None;
    let accounts = accounts_for(&campaign);
    let receipt = mint_once(&mut campaign, &mut stats, &accounts, None).unwrap();
    assert_eq!(total_paid_to(&receipt.payments, &creator()), 1000);
    assert_eq!(campaign.minted, 1);
    assert!(stats.is_none());
}

#[test]
fn wrong_mint_account_is_rejected_and_mutates_nothing() {
    let mut campaign = new_campaign(1);
    let mut stats: Option<AffiliateStats> = None;
    let mut accounts = accounts_for(&campaign);
    accounts.nft_mint = addr(9);
    let r = mint_once(&mut campaign, &mut stats, &accounts, Some(addr(6)));
    assert!(matches!(r, Err(ErrorCode::InvalidMintAccount)));
    assert_eq!(campaign.minted, 0);
    assert!(stats.is_none());
}

#[test]
fn wrong_metadata_is_rejected() {
    let mut campaign = new_campaign(1);
    let mut stats: Option<AffiliateStats> = None;
    let mut accounts = accounts_for(&campaign);
    accounts.metadata = addr(9);
    let r = mint_once(&mut campaign, &mut stats, &accounts, None);
    assert!(matches!(r, Err(ErrorCode::InvalidMetadata)));
    assert_eq!(campaign.minted, 0);
}

#[test]
fn wrong_master_edition_is_rejected() {
    let mut campaign = new_campaign(1);
    let mut stats: Option<AffiliateStats> = None;
    let mut accounts = accounts_for(&campaign);
    accounts.master_edition = addr(9);
    let r = mint_once(&mut campaign, &mut stats, &accounts, None);
    assert!(matches!(r, Err(ErrorCode::InvalidMasterEdition)));
    assert_eq!(campaign.minted, 0);
}

#[test]
fn wrong_collection_metadata_is_rejected() {
    let mut campaign = new_campaign(1);
    let mut stats: Option<AffiliateStats> = None;
    let mut accounts = accounts_for(&campaign);
    accounts.collection_metadata = addr(9);
    let r = mint_once(&mut campaign, &mut stats, &accounts, None);
    assert!(matches!(r, Err(ErrorCode::InvalidCollectionMetadata)));
    assert_eq!(campaign.minted, 0);
}

#[test]
fn wrong_collection_master_edition_is_rejected() {
    let mut campaign = new_campaign(1);
    let mut stats: Option<AffiliateStats> = None;
    let mut accounts = accounts_for(&campaign);
    accounts.collection_master_edition = addr(9);
    let r = mint_once(&mut campaign, &mut stats, &accounts, None);
    assert!(matches!(r, Err(ErrorCode::InvalidCollectionMetadata)));
    assert_eq!(campaign.minted, 0);
}

#[test]
fn affiliate_counters_accumulate_over_mints() {
    let affiliate = addr(6);
    let mut campaign = new_campaign(3);
    let mut stats: Option<AffiliateStats> = None;
    for _ in 0..3 {
        let accounts = accounts_for(&campaign);
        mint_once(&mut campaign, &mut stats, &accounts, Some(affiliate)).unwrap();
    }
    assert_eq!(campaign.minted, 3);
    let s = stats.unwrap();
    assert_eq!(s.total_mints, 3);
    assert_eq!(s.total_earned, 150);
}

#[test]
fn counter_overflow_is_rejected_and_mutates_nothing() {
    let mut campaign = new_campaign(1);
    let mut stats = Some(AffiliateStats {
        total_mints: u64::MAX,
        total_earned: 0,
    });
    let accounts = accounts_for(&campaign);
    let r = mint_once(&mut campaign, &mut stats, &accounts, Some(addr(6)));
    assert!(matches!(r, Err(ErrorCode::MathOverflow)));
    assert_eq!(campaign.minted, 0);
    let s = stats.unwrap();
    assert_eq!(s.total_mints, u64::MAX);
    assert_eq!(s.total_earned, 0);
}

#[test]
fn receipt_issues_canonical_token_to_buyer() {
    let mut campaign = new_campaign(1);
    let expected = expected_mint_address(&campaign, &program_id());
    let mut stats: Option<AffiliateStats> = None;
    let accounts = accounts_for(&campaign);
    let receipt = mint_once(&mut campaign, &mut stats, &accounts, None).unwrap();
    assert_eq!(receipt.token.mint, expected);
    assert_eq!(receipt.token.owner, buyer());
    assert_eq!(receipt.token.collection_mint, collection());
    assert_eq!(receipt.token.name, "Collectible");
    assert_eq!(receipt.token.symbol, "COLL");
    assert_eq!(receipt.token.uri, "https://example.invalid/token.json");
}

#[test]
fn receipt_authorities_verify_against_stored_bumps() {
    let mut campaign = new_campaign(1);
    let mut stats: Option<AffiliateStats> = None;
    let accounts = accounts_for(&campaign);
    let receipt = mint_once(&mut campaign, &mut stats, &accounts, None).unwrap();
    let key = campaign_key(&collection(), &program_id());
    assert!(affiliate_market::authority::verify_authority(
        &receipt.token.mint_authority,
        affiliate_market::seeds::build_mint_auth_seeds(&key),
        receipt.token.mint_authority_bump,
        &program_id()
    ));
    assert!(affiliate_market::authority::verify_authority(
        &receipt.token.collection_authority,
        affiliate_market::seeds::build_collection_auth_seeds(&key),
        receipt.token.collection_authority_bump,
        &program_id()
    ));
}

#[test]
fn validate_accounts_accepts_canonical_records() {
    let campaign = new_campaign(1);
    let accounts = accounts_for(&campaign);
    assert_eq!(validate_accounts(&accounts), Ok(()));
}

#[test]
fn zero_supply_campaign_rejects_every_mint() {
    let mut campaign = new_campaign(0);
    let mut stats: Option<AffiliateStats> = None;
    let accounts = accounts_for(&campaign);
    let r = mint_once(&mut campaign, &mut stats, &accounts, Some(addr(6)));
    assert!(matches!(r, Err(ErrorCode::SoldOut)));
    assert_eq!(campaign.minted, 0);
    assert!(stats.is_none());
}

#[test]
fn token_identity_changes_with_supply_counter() {
    let mut campaign = new_campaign(2);
    let first = expected_mint_address(&campaign, &program_id());
    let mut stats: Option<AffiliateStats> = None;
    let accounts = accounts_for(&campaign);
    mint_once(&mut campaign, &mut stats, &accounts, None).unwrap();
    let second = expected_mint_address(&campaign, &program_id());
    assert_ne!(first.bytes, second.bytes);
}
