//! The persistent records: campaigns and per-affiliate counters.

use vstd::prelude::*;

use crate::address::Address;
use crate::authority::{derived_address, exact_derived_address};
use crate::payment::FEE_DENOMINATOR;
use crate::seeds::{campaign_seeds, collection_auth_seeds, mint_auth_seeds};

verus! {

/// Configuration and counters of one sellable collectible series.
///
/// The configuration fields are fixed at creation; only `minted` changes
/// afterwards, and only by the mint workflow.
#[derive(Clone, Copy, Debug, PartialEq, Eq)]
pub struct Campaign {
    /// Beneficiary of the non-affiliate proceeds.
    pub creator: Address,
    /// The parent collection this series belongs to; immutable.
    pub collection_mint: Address,
    /// Fixed amount charged per mint, in the smallest currency unit.
    pub price: u64,
    /// Referral share of the price, in basis points of the whole.
    pub affiliate_fee_bps: u16,
    /// How many tokens have been issued so far.
    pub minted: u64,
    /// Upper bound on `minted`; immutable.
    pub max_supply: u64,
    /// Bump seed re-deriving the mint authority; fixed at creation.
    pub mint_authority_bump: u8,
    /// Bump seed re-deriving the collection authority; fixed at creation.
    pub collection_auth_bump: u8,
}

/// The address of the campaign record for a collection: the derivation of
/// the campaign seed path under the owning program.
pub open spec fn spec_campaign_key(collection_mint: Seq<u8>, program_id: Seq<u8>) -> Seq<u8> {
    derived_address(campaign_seeds(collection_mint), program_id).0
}

impl Campaign {
    /// The mint authority this campaign's stored bump re-derives, if the
    /// exact derivation is valid.
    pub open spec fn spec_mint_authority(self, program_id: Seq<u8>) -> Option<Seq<u8>> {
        exact_derived_address(
            mint_auth_seeds(spec_campaign_key(self.collection_mint@, program_id)).push(
                seq![self.mint_authority_bump],
            ),
            program_id,
        )
    }

    /// The collection authority this campaign's stored bump re-derives, if
    /// the exact derivation is valid.
    pub open spec fn spec_collection_authority(self, program_id: Seq<u8>) -> Option<Seq<u8>> {
        exact_derived_address(
            collection_auth_seeds(spec_campaign_key(self.collection_mint@, program_id)).push(
                seq![self.collection_auth_bump],
            ),
            program_id,
        )
    }

    /// Well-formedness, established at creation and preserved by every
    /// mint: the supply counter never exceeds its bound, the fee is within
    /// scale, and the stored bump seeds re-derive valid authorities.
    pub open spec fn wf(self, program_id: Seq<u8>) -> bool {
        &&& self.minted <= self.max_supply
        &&& self.affiliate_fee_bps <= FEE_DENOMINATOR
        &&& self.spec_mint_authority(program_id) is Some
        &&& self.spec_collection_authority(program_id) is Some
    }
}

/// Counters for one (campaign, affiliate) pair, created lazily on the first
/// referral and only ever increased.
#[derive(Clone, Copy, Debug, PartialEq, Eq, Structural)]
pub struct AffiliateStats {
    /// Tokens sold through this affiliate for this campaign.
    pub total_mints: u64,
    /// Cumulative affiliate payout for this campaign.
    pub total_earned: u64,
}

impl AffiliateStats {
    /// The state of a counter record that does not exist yet.
    pub open spec fn spec_new() -> AffiliateStats {
        AffiliateStats { total_mints: 0, total_earned: 0 }
    }

    /// A fresh counter record, as initialized on first use.
    pub fn new() -> (r: AffiliateStats)
        ensures
            r == AffiliateStats::spec_new(),
    {
        AffiliateStats { total_mints: 0, total_earned: 0 }
    }
}

} // verus!
