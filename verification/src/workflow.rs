//! The mint-and-settle workflow.
//!
//! One mint request runs through seven stages: validating (supply and
//! canonical token identity), paying, issuing, registering metadata,
//! verifying collection membership, recording affiliate counters, and
//! committing the supply counter.  Every check precedes every mutation, so
//! a rejected request leaves the campaign and the affiliate counters
//! exactly as they were and asks for no transfer, no issuance and no
//! registration: nothing partial survives.

use vstd::prelude::*;

use crate::address::{address_eq, Address};
use crate::authority::{derive_authority, derived_address, rederive_authority};
use crate::collection::verify_collection_accounts;
use crate::error::ErrorCode;
use crate::ledger::{
    record_affiliate_mint, spec_record_mint, spec_record_overflows, spec_stats_or_new,
};
use crate::payment::{build_payments, spec_affiliate_cut, spec_payments, split, Payment};
use crate::seeds::{
    build_campaign_seeds, build_collection_auth_seeds, build_edition_seeds, build_metadata_seeds,
    build_mint_auth_seeds, build_nft_mint_seeds, edition_seeds, metadata_seeds, nft_mint_seeds,
};
use crate::state::{spec_campaign_key, AffiliateStats, Campaign};

verus! {

/// The accounts a mint request supplies, beyond the campaign itself: the
/// paying buyer, the caller-computed addresses the workflow will validate
/// against their canonical derivations, and the metadata registry program
/// those derivations are rooted in.
#[derive(Clone, Copy, Debug)]
pub struct ProcessMint {
    /// The buyer: pays the price and owns the new token.
    pub buyer: Address,
    /// Where the new token must live; must equal the canonical derivation.
    pub nft_mint: Address,
    /// The token's metadata record; must equal the canonical derivation.
    pub metadata: Address,
    /// The token's master-edition record; must equal the canonical
    /// derivation.
    pub master_edition: Address,
    /// The parent collection's metadata record; must equal the canonical
    /// derivation.
    pub collection_metadata: Address,
    /// The parent collection's master-edition record; must equal the
    /// canonical derivation.
    pub collection_master_edition: Address,
    /// The metadata registry program that owns the metadata and edition
    /// records.
    pub token_metadata_program: Address,
}

/// What a successful mint asks the trusted external services to perform:
/// the token issuance with all its validated addresses and descriptive
/// data.
pub struct TokenIssuance {
    /// The new token's address: the canonical derivation for this mint.
    pub mint: Address,
    /// The buyer, owner of the new token.
    pub owner: Address,
    /// The mint authority, re-derived from the campaign's stored bump.
    pub mint_authority: Address,
    /// The stored bump re-deriving `mint_authority`.
    pub mint_authority_bump: u8,
    /// The validated metadata record address.
    pub metadata: Address,
    /// The validated master-edition record address.
    pub master_edition: Address,
    /// The parent collection.
    pub collection_mint: Address,
    /// The validated collection metadata record address.
    pub collection_metadata: Address,
    /// The validated collection master-edition record address.
    pub collection_master_edition: Address,
    /// The collection authority, re-derived from the campaign's stored
    /// bump.
    pub collection_authority: Address,
    /// The stored bump re-deriving `collection_authority`.
    pub collection_authority_bump: u8,
    /// Descriptive name attached to the token.
    pub name: String,
    /// Descriptive symbol attached to the token.
    pub symbol: String,
    /// Descriptive resource locator attached to the token.
    pub uri: String,
}

/// Everything a successful mint commits to: the value transfers and the
/// token issuance.
pub struct MintReceipt {
    /// The transfers, all funded by the buyer.
    pub payments: Vec<Payment>,
    /// The issuance of the new token.
    pub token: TokenIssuance,
}

/// The canonical address of the next token of a campaign: derived from the
/// campaign's key and its current supply counter.
pub open spec fn spec_canonical_mint(c: Campaign, program_id: Seq<u8>) -> Seq<u8> {
    derived_address(
        nft_mint_seeds(spec_campaign_key(c.collection_mint@, program_id), c.minted),
        program_id,
    ).0
}

/// The canonical address of a token's metadata record under a metadata
/// registry program.
pub open spec fn spec_metadata_key(registry: Seq<u8>, mint: Seq<u8>) -> Seq<u8> {
    derived_address(metadata_seeds(registry, mint), registry).0
}

/// The canonical address of a token's master-edition record under a
/// metadata registry program.
pub open spec fn spec_edition_key(registry: Seq<u8>, mint: Seq<u8>) -> Seq<u8> {
    derived_address(edition_seeds(registry, mint), registry).0
}

/// The campaign's supply is exhausted.
pub open spec fn spec_sold_out(c: Campaign) -> bool {
    c.minted >= c.max_supply
}

/// The supplied token address equals the canonical derivation.
pub open spec fn spec_mint_account_ok(c: Campaign, a: ProcessMint, program_id: Seq<u8>) -> bool {
    a.nft_mint@ == spec_canonical_mint(c, program_id)
}

/// The supplied metadata address equals the canonical derivation.
pub open spec fn spec_metadata_ok(a: ProcessMint) -> bool {
    a.metadata@ == spec_metadata_key(a.token_metadata_program@, a.nft_mint@)
}

/// The supplied master-edition address equals the canonical derivation.
pub open spec fn spec_edition_ok(a: ProcessMint) -> bool {
    a.master_edition@ == spec_edition_key(a.token_metadata_program@, a.nft_mint@)
}

/// The supplied collection accounts equal the canonical derivations from
/// the campaign's collection reference.
pub open spec fn spec_collection_ok(c: Campaign, a: ProcessMint) -> bool {
    &&& a.collection_metadata@ == spec_metadata_key(a.token_metadata_program@, c.collection_mint@)
    &&& a.collection_master_edition@ == spec_edition_key(
        a.token_metadata_program@,
        c.collection_mint@,
    )
}

/// Every validation of a mint request passes.
pub open spec fn spec_mint_checks_pass(c: Campaign, a: ProcessMint, program_id: Seq<u8>) -> bool {
    &&& !spec_sold_out(c)
    &&& spec_mint_account_ok(c, a, program_id)
    &&& spec_metadata_ok(a)
    &&& spec_edition_ok(a)
    &&& spec_collection_ok(c, a)
}

/// The affiliate's cut of one mint of this campaign.
pub open spec fn spec_campaign_cut(c: Campaign) -> int {
    spec_affiliate_cut(c.price, c.affiliate_fee_bps)
}

/// The campaign record's address under the owning program.
pub fn campaign_key(collection_mint: &Address, program_id: &Address) -> (r: Address)
    ensures
        r@ == spec_campaign_key(collection_mint@, program_id@),
{
    let seeds = build_campaign_seeds(collection_mint);
    let (key, _bump) = derive_authority(&seeds, program_id);
    key
}

/// The canonical address the next token of this campaign must use.  Because
/// it depends only on the campaign's key and supply counter, a caller can
/// compute it before the mint, and the workflow re-derives and compares it,
/// preventing substitution of an attacker-controlled account.
pub fn expected_mint_address(campaign: &Campaign, program_id: &Address) -> (r: Address)
    ensures
        r@ == spec_canonical_mint(*campaign, program_id@),
{
    let ckey = campaign_key(&campaign.collection_mint, program_id);
    let seeds = build_nft_mint_seeds(&ckey, campaign.minted);
    let (key, _bump) = derive_authority(&seeds, program_id);
    key
}

/// The canonical address of a token's metadata record.
pub fn canonical_metadata_address(registry: &Address, mint: &Address) -> (r: Address)
    ensures
        r@ == spec_metadata_key(registry@, mint@),
{
    let seeds = build_metadata_seeds(registry, mint);
    let (key, _bump) = derive_authority(&seeds, registry);
    key
}

/// The canonical address of a token's master-edition record.
pub fn canonical_edition_address(registry: &Address, mint: &Address) -> (r: Address)
    ensures
        r@ == spec_edition_key(registry@, mint@),
{
    let seeds = build_edition_seeds(registry, mint);
    let (key, _bump) = derive_authority(&seeds, registry);
    key
}

/// Validate that the supplied metadata and master-edition addresses of the
/// new token match their canonical derivations, so that no caller can point
/// the registration at fake records.
pub fn validate_accounts(accounts: &ProcessMint) -> (r: Result<(), ErrorCode>)
    ensures
        r is Ok <==> spec_metadata_ok(*accounts) && spec_edition_ok(*accounts),
        r == Err::<(), ErrorCode>(ErrorCode::InvalidMetadata) <==> !spec_metadata_ok(*accounts),
        r == Err::<(), ErrorCode>(ErrorCode::InvalidMasterEdition) <==> spec_metadata_ok(*accounts)
            && !spec_edition_ok(*accounts),
{
    let expected_metadata = canonical_metadata_address(
        &accounts.token_metadata_program,
        &accounts.nft_mint,
    );
    if !address_eq(&accounts.metadata, &expected_metadata) {
        return Err(ErrorCode::InvalidMetadata);
    }
    let expected_edition = canonical_edition_address(
        &accounts.token_metadata_program,
        &accounts.nft_mint,
    );
    if !address_eq(&accounts.master_edition, &expected_edition) {
        return Err(ErrorCode::InvalidMasterEdition);
    }
    Ok(())
}

/// Process one mint request against a campaign.
///
/// Stages, in order: supply check; canonical token-identity check; payment
/// split; authority re-derivation; metadata and edition validation;
/// collection validation; affiliate recording; supply increment.  On any
/// failure the campaign and the counters are unchanged and no receipt — no
/// transfer, no issuance — leaves the function.
pub fn process_mint(
    campaign: &mut Campaign,
    stats: &mut Option<AffiliateStats>,
    accounts: &ProcessMint,
    affiliate_maybe: Option<Address>,
    name: String,
    symbol: String,
    uri: String,
    program_id: &Address,
) -> (r: Result<MintReceipt, ErrorCode>)
    requires
        old(campaign).wf(program_id@),
    ensures
        (*final(campaign)).wf(program_id@),
        r is Err ==> *final(campaign) == *old(campaign) && *final(stats) == *old(stats),
        r is Ok <==> spec_mint_checks_pass(*old(campaign), *accounts, program_id@) && (
        affiliate_maybe is Some ==> !spec_record_overflows(
            *old(stats),
            spec_campaign_cut(*old(campaign)) as u64,
        )),
        r == Err::<MintReceipt, ErrorCode>(ErrorCode::SoldOut) <==> spec_sold_out(*old(campaign)),
        r == Err::<MintReceipt, ErrorCode>(ErrorCode::InvalidMintAccount) <==> !spec_sold_out(
            *old(campaign),
        ) && !spec_mint_account_ok(*old(campaign), *accounts, program_id@),
        r == Err::<MintReceipt, ErrorCode>(ErrorCode::InvalidMetadata) <==> !spec_sold_out(
            *old(campaign),
        ) && spec_mint_account_ok(*old(campaign), *accounts, program_id@) && !spec_metadata_ok(
            *accounts,
        ),
        r == Err::<MintReceipt, ErrorCode>(ErrorCode::InvalidMasterEdition) <==> !spec_sold_out(
            *old(campaign),
        ) && spec_mint_account_ok(*old(campaign), *accounts, program_id@) && spec_metadata_ok(
            *accounts,
        ) && !spec_edition_ok(*accounts),
        r == Err::<MintReceipt, ErrorCode>(ErrorCode::InvalidCollectionMetadata) <==> !spec_sold_out(
            *old(campaign),
        ) && spec_mint_account_ok(*old(campaign), *accounts, program_id@) && spec_metadata_ok(
            *accounts,
        ) && spec_edition_ok(*accounts) && !spec_collection_ok(*old(campaign), *accounts),
        r == Err::<MintReceipt, ErrorCode>(ErrorCode::MathOverflow) <==> spec_mint_checks_pass(
            *old(campaign),
            *accounts,
            program_id@,
        ) && affiliate_maybe is Some && spec_record_overflows(
            *old(stats),
            spec_campaign_cut(*old(campaign)) as u64,
        ),
        r matches Ok(receipt) ==> {
            let cut = spec_campaign_cut(*old(campaign)) as u64;
            let rest = (old(campaign).price - spec_campaign_cut(*old(campaign))) as u64;
            &&& *final(campaign) == (Campaign { minted: (old(campaign).minted + 1) as u64, ..*old(
                campaign,
            ) })
            &&& (affiliate_maybe is Some ==> *final(stats) == Some(
                spec_record_mint(spec_stats_or_new(*old(stats)), cut),
            ))
            &&& (affiliate_maybe is None ==> *final(stats) == *old(stats))
            &&& receipt.payments@ == spec_payments(
                accounts.buyer,
                old(campaign).creator,
                affiliate_maybe,
                cut,
                rest,
            )
            &&& receipt.token.mint@ == spec_canonical_mint(*old(campaign), program_id@)
            &&& receipt.token.owner == accounts.buyer
            &&& Some(receipt.token.mint_authority@) == old(campaign).spec_mint_authority(
                program_id@,
            )
            &&& receipt.token.mint_authority_bump == old(campaign).mint_authority_bump
            &&& receipt.token.metadata == accounts.metadata
            &&& receipt.token.master_edition == accounts.master_edition
            &&& receipt.token.collection_mint == old(campaign).collection_mint
            &&& receipt.token.collection_metadata == accounts.collection_metadata
            &&& receipt.token.collection_master_edition == accounts.collection_master_edition
            &&& Some(receipt.token.collection_authority@) == old(
                campaign,
            ).spec_collection_authority(program_id@)
            &&& receipt.token.collection_authority_bump == old(campaign).collection_auth_bump
            &&& receipt.token.name == name
            &&& receipt.token.symbol == symbol
            &&& receipt.token.uri == uri
        },
{
    let camp = *campaign;

    // Validating: supply.
    if camp.minted >= camp.max_supply {
        return Err(ErrorCode::SoldOut);
    }

    // Validating: the supplied token address must be the canonical one.
    let expected_mint = expected_mint_address(&camp, program_id);
    if !address_eq(&accounts.nft_mint, &expected_mint) {
        return Err(ErrorCode::InvalidMintAccount);
    }

    // Paying: split the price.  The fee is within scale, so the split
    // cannot fail; the check stays for defense.
    let (affiliate_cut, creator_cut) = match split(camp.price, camp.affiliate_fee_bps) {
        Ok(cuts) => cuts,
        Err(e) => {
            proof {
                assert(false);
            }
            return Err(e);
        },
    };

    // Issuing: re-derive the mint authority from the stored bump; the
    // campaign's well-formedness guarantees the derivation is valid.
    let ckey = campaign_key(&camp.collection_mint, program_id);
    let mint_auth_seeds_vec = build_mint_auth_seeds(&ckey);
    let mint_authority = match rederive_authority(
        mint_auth_seeds_vec,
        camp.mint_authority_bump,
        program_id,
    ) {
        Some(a) => a,
        None => {
            proof {
                assert(false);
            }
            return Err(ErrorCode::InvalidMintAccount);
        },
    };

    // Registering: the metadata and edition records must be canonical.
    match validate_accounts(accounts) {
        Ok(()) => (),
        Err(e) => {
            return Err(e);
        },
    }

    // Verifying collection: the collection accounts must be canonical, and
    // the attestation is authorized by the re-derived collection authority.
    match verify_collection_accounts(&camp, accounts) {
        Ok(()) => (),
        Err(e) => {
            return Err(e);
        },
    }
    let coll_auth_seeds_vec = build_collection_auth_seeds(&ckey);
    let collection_authority = match rederive_authority(
        coll_auth_seeds_vec,
        camp.collection_auth_bump,
        program_id,
    ) {
        Some(a) => a,
        None => {
            proof {
                assert(false);
            }
            return Err(ErrorCode::InvalidCollectionMetadata);
        },
    };

    // Recording affiliate counters, lazily creating the record.
    match affiliate_maybe {
        Some(_) => {
            match record_affiliate_mint(stats, affiliate_cut) {
                Ok(()) => (),
                Err(e) => {
                    return Err(e);
                },
            }
        },
        None => (),
    }

    // Paying and committing: nothing after this point can fail.
    let payments = build_payments(
        &accounts.buyer,
        &camp.creator,
        &affiliate_maybe,
        affiliate_cut,
        creator_cut,
    );
    campaign.minted = camp.minted + 1;

    Ok(
        MintReceipt {
            payments,
            token: TokenIssuance {
                mint: expected_mint,
                owner: accounts.buyer,
                mint_authority,
                mint_authority_bump: camp.mint_authority_bump,
                metadata: accounts.metadata,
                master_edition: accounts.master_edition,
                collection_mint: camp.collection_mint,
                collection_metadata: accounts.collection_metadata,
                collection_master_edition: accounts.collection_master_edition,
                collection_authority,
                collection_authority_bump: camp.collection_auth_bump,
                name,
                symbol,
                uri,
            },
        },
    )
}

} // verus!
