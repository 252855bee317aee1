//! Creating and reading campaign records.
//!
//! A campaign is keyed by its collection reference: creating a second
//! campaign for the same collection is rejected, never merged.  Creation
//! enforces the configuration invariants and persists the two authority
//! bump seeds for every later mint to re-derive its capabilities from.

use vstd::prelude::*;

use crate::address::{address_eq, Address};
use crate::authority::{derive_authority, derived_address};
use crate::error::ErrorCode;
use crate::payment::FEE_DENOMINATOR;
use crate::seeds::{
    build_collection_auth_seeds, build_mint_auth_seeds, collection_auth_seeds, mint_auth_seeds,
};
use crate::state::{spec_campaign_key, Campaign};
use crate::workflow::campaign_key;

verus! {

/// Build the campaign record for a collection: reject an out-of-scale fee,
/// derive the two authority bump seeds, and start the supply counter at
/// zero.  Whether a campaign already exists for the collection is the
/// store's concern, not this constructor's.
pub fn create_campaign_instruction(
    creator: &Address,
    collection_mint: &Address,
    price: u64,
    affiliate_fee_bps: u16,
    max_supply: u64,
    program_id: &Address,
) -> (r: Result<Campaign, ErrorCode>)
    ensures
        r is Ok <==> affiliate_fee_bps <= FEE_DENOMINATOR,
        r is Err ==> r == Err::<Campaign, ErrorCode>(ErrorCode::InvalidFee),
        r matches Ok(c) ==> {
            let ckey = spec_campaign_key(collection_mint@, program_id@);
            &&& c.creator == *creator
            &&& c.collection_mint == *collection_mint
            &&& c.price == price
            &&& c.affiliate_fee_bps == affiliate_fee_bps
            &&& c.minted == 0
            &&& c.max_supply == max_supply
            &&& c.mint_authority_bump == derived_address(mint_auth_seeds(ckey), program_id@).1
            &&& c.collection_auth_bump == derived_address(
                collection_auth_seeds(ckey),
                program_id@,
            ).1
            &&& c.wf(program_id@)
        },
{
    if affiliate_fee_bps as u64 > FEE_DENOMINATOR {
        return Err(ErrorCode::InvalidFee);
    }
    let ckey = campaign_key(collection_mint, program_id);
    let mint_auth_seeds_vec = build_mint_auth_seeds(&ckey);
    let (_mint_authority, mint_authority_bump) = derive_authority(&mint_auth_seeds_vec, program_id);
    let coll_auth_seeds_vec = build_collection_auth_seeds(&ckey);
    let (_collection_authority, collection_auth_bump) = derive_authority(
        &coll_auth_seeds_vec,
        program_id,
    );
    Ok(
        Campaign {
            creator: *creator,
            collection_mint: *collection_mint,
            price,
            affiliate_fee_bps,
            minted: 0,
            max_supply,
            mint_authority_bump,
            collection_auth_bump,
        },
    )
}

/// The store of campaign records of one owning program.
pub struct CampaignRegistry {
    program_id: Address,
    campaigns: Vec<Campaign>,
}

impl CampaignRegistry {
    /// The owning program all records belong to.
    pub closed spec fn spec_program_id(self) -> Seq<u8> {
        self.program_id@
    }

    /// The stored campaign records, in creation order.
    pub closed spec fn spec_campaigns(self) -> Seq<Campaign> {
        self.campaigns@
    }

    /// Whether a campaign exists for a collection reference.
    pub open spec fn spec_has_campaign(self, collection_mint: Seq<u8>) -> bool {
        exists|i: int|
            0 <= i < self.spec_campaigns().len() && (#[trigger] self.spec_campaigns()[i]).collection_mint@
                == collection_mint
    }

    /// Every record is well-formed and no two share a collection
    /// reference.
    pub open spec fn wf(self) -> bool {
        &&& forall|i: int|
            0 <= i < self.spec_campaigns().len() ==> (#[trigger] self.spec_campaigns()[i]).wf(
                self.spec_program_id(),
            )
        &&& forall|i: int, j: int|
            0 <= i < j < self.spec_campaigns().len() ==> (#[trigger] self.spec_campaigns()[i]).collection_mint@
                != (#[trigger] self.spec_campaigns()[j]).collection_mint@
    }

    /// An empty store for one owning program.
    pub fn new(program_id: Address) -> (r: CampaignRegistry)
        ensures
            r.wf(),
            r.spec_program_id() == program_id@,
            r.spec_campaigns().len() == 0,
    {
        CampaignRegistry { program_id, campaigns: Vec::new() }
    }

    /// How many campaigns the store holds.
    pub fn len(&self) -> (r: usize)
        ensures
            r == self.spec_campaigns().len(),
    {
        self.campaigns.len()
    }

    /// Find the campaign for a collection reference.
    pub fn find_campaign(&self, collection_mint: &Address) -> (r: Option<usize>)
        ensures
            match r {
                Some(i) => i < self.spec_campaigns().len() && self.spec_campaigns()[
                    i as int
                ].collection_mint@ == collection_mint@,
                None => !self.spec_has_campaign(collection_mint@),
            },
    {
        let mut i: usize = 0;
        while i < self.campaigns.len()
            invariant
                0 <= i <= self.campaigns@.len(),
                forall|j: int|
                    0 <= j < i ==> (#[trigger] self.campaigns@[j]).collection_mint@
                        != collection_mint@,
            decreases self.campaigns@.len() - i,
        {
            if address_eq(&self.campaigns[i].collection_mint, collection_mint) {
                return Some(i);
            }
            i += 1;
        }
        None
    }

    /// Read one stored campaign record.
    pub fn campaign_at(&self, index: usize) -> (r: Campaign)
        requires
            index < self.spec_campaigns().len(),
        ensures
            r == self.spec_campaigns()[index as int],
    {
        self.campaigns[index]
    }

    /// Create and persist the campaign for a collection.  An out-of-scale
    /// fee is rejected with `InvalidFee`, a collection that already has a
    /// campaign with `CampaignAlreadyExists`; either way nothing is
    /// created.
    pub fn create_campaign(
        &mut self,
        creator: &Address,
        collection_mint: &Address,
        price: u64,
        affiliate_fee_bps: u16,
        max_supply: u64,
    ) -> (r: Result<Campaign, ErrorCode>)
        requires
            old(self).wf(),
        ensures
            (*final(self)).wf(),
            (*final(self)).spec_program_id() == old(self).spec_program_id(),
            r is Err ==> *final(self) == *old(self),
            r == Err::<Campaign, ErrorCode>(ErrorCode::InvalidFee) <==> affiliate_fee_bps
                > FEE_DENOMINATOR,
            r == Err::<Campaign, ErrorCode>(ErrorCode::CampaignAlreadyExists) <==> affiliate_fee_bps
                <= FEE_DENOMINATOR && old(self).spec_has_campaign(collection_mint@),
            r is Ok <==> affiliate_fee_bps <= FEE_DENOMINATOR && !old(self).spec_has_campaign(
                collection_mint@,
            ),
            r matches Ok(c) ==> {
                let ckey = spec_campaign_key(collection_mint@, old(self).spec_program_id());
                &&& c.creator == *creator
                &&& c.collection_mint == *collection_mint
                &&& c.price == price
                &&& c.affiliate_fee_bps == affiliate_fee_bps
                &&& c.minted == 0
                &&& c.max_supply == max_supply
                &&& c.mint_authority_bump == derived_address(
                    mint_auth_seeds(ckey),
                    old(self).spec_program_id(),
                ).1
                &&& c.collection_auth_bump == derived_address(
                    collection_auth_seeds(ckey),
                    old(self).spec_program_id(),
                ).1
                &&& c.wf(old(self).spec_program_id())
                &&& (*final(self)).spec_campaigns() == old(self).spec_campaigns().push(c)
            },
    {
        if affiliate_fee_bps as u64 > FEE_DENOMINATOR {
            return Err(ErrorCode::InvalidFee);
        }
        match self.find_campaign(collection_mint) {
            Some(_) => {
                return Err(ErrorCode::CampaignAlreadyExists);
            },
            None => (),
        }
        let campaign = match create_campaign_instruction(
            creator,
            collection_mint,
            price,
            affiliate_fee_bps,
            max_supply,
            &self.program_id,
        ) {
            Ok(c) => c,
            Err(e) => {
                proof {
                    assert(false);
                }
                return Err(e);
            },
        };
        self.campaigns.push(campaign);
        Ok(campaign)
    }

    /// Commit an updated campaign record — the mint workflow's supply
    /// increment — back into the store.  The collection reference is
    /// immutable, so the updated record must keep it.
    pub fn store_campaign_at(&mut self, index: usize, campaign: Campaign)
        requires
            old(self).wf(),
            index < old(self).spec_campaigns().len(),
            campaign.wf(old(self).spec_program_id()),
            campaign.collection_mint == old(self).spec_campaigns()[index as int].collection_mint,
        ensures
            (*final(self)).wf(),
            (*final(self)).spec_program_id() == old(self).spec_program_id(),
            (*final(self)).spec_campaigns() == old(self).spec_campaigns().update(
                index as int,
                campaign,
            ),
    {
        self.campaigns[index] = campaign;
    }
}

} // verus!
