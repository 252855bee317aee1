//! Canonical seed paths for every derived address in the system.
//!
//! Each role has a fixed public tag; appending the relevant keys gives the
//! seed path from which the host derives the address.  Anybody who knows a
//! campaign's key can recompute every address the workflow will accept.

use vstd::prelude::*;

use crate::address::Address;

verus! {

/// Tag of a campaign record: the bytes of `"campaign"`.
pub open spec fn campaign_tag() -> Seq<u8> {
    seq![99u8, 97u8, 109u8, 112u8, 97u8, 105u8, 103u8, 110u8]
}

/// Tag of a campaign's mint authority: the bytes of `"mint_auth"`.
pub open spec fn mint_auth_tag() -> Seq<u8> {
    seq![109u8, 105u8, 110u8, 116u8, 95u8, 97u8, 117u8, 116u8, 104u8]
}

/// Tag of a campaign's collection authority: the bytes of `"collection_auth"`.
pub open spec fn collection_auth_tag() -> Seq<u8> {
    seq![
        99u8, 111u8, 108u8, 108u8, 101u8, 99u8, 116u8, 105u8, 111u8, 110u8, 95u8, 97u8, 117u8,
        116u8, 104u8,
    ]
}

/// Tag of an issued token: the bytes of `"nft_mint"`.
pub open spec fn nft_mint_tag() -> Seq<u8> {
    seq![110u8, 102u8, 116u8, 95u8, 109u8, 105u8, 110u8, 116u8]
}

/// Tag of a per-affiliate counter record: the bytes of `"affiliate"`.
pub open spec fn affiliate_tag() -> Seq<u8> {
    seq![97u8, 102u8, 102u8, 105u8, 108u8, 105u8, 97u8, 116u8, 101u8]
}

/// Tag of a descriptive metadata record: the bytes of `"metadata"`.
pub open spec fn metadata_tag() -> Seq<u8> {
    seq![109u8, 101u8, 116u8, 97u8, 100u8, 97u8, 116u8, 97u8]
}

/// Tag of a master-edition record: the bytes of `"edition"`.
pub open spec fn edition_tag() -> Seq<u8> {
    seq![101u8, 100u8, 105u8, 116u8, 105u8, 111u8, 110u8]
}

/// Seed path of the campaign record for a collection.
pub open spec fn campaign_seeds(collection_mint: Seq<u8>) -> Seq<Seq<u8>> {
    seq![campaign_tag(), collection_mint]
}

/// Seed path of a campaign's mint authority.
pub open spec fn mint_auth_seeds(campaign_key: Seq<u8>) -> Seq<Seq<u8>> {
    seq![mint_auth_tag(), campaign_key]
}

/// Seed path of a campaign's collection authority.
pub open spec fn collection_auth_seeds(campaign_key: Seq<u8>) -> Seq<Seq<u8>> {
    seq![collection_auth_tag(), campaign_key]
}

/// Seed path of the token issued at position `index` of a campaign.
pub open spec fn nft_mint_seeds(campaign_key: Seq<u8>, index: u64) -> Seq<Seq<u8>> {
    seq![nft_mint_tag(), campaign_key, vstd::bytes::spec_u64_to_le_bytes(index)]
}

/// Seed path of the counter record for an affiliate of a campaign.
pub open spec fn affiliate_seeds(campaign_key: Seq<u8>, affiliate: Seq<u8>) -> Seq<Seq<u8>> {
    seq![affiliate_tag(), campaign_key, affiliate]
}

/// Seed path of a token's descriptive metadata record, owned by the
/// metadata registry program.
pub open spec fn metadata_seeds(registry: Seq<u8>, mint: Seq<u8>) -> Seq<Seq<u8>> {
    seq![metadata_tag(), registry, mint]
}

/// Seed path of a token's master-edition record, owned by the metadata
/// registry program.
pub open spec fn edition_seeds(registry: Seq<u8>, mint: Seq<u8>) -> Seq<Seq<u8>> {
    seq![metadata_tag(), registry, mint, edition_tag()]
}

/// True when each seed in the path fits the host's limits: at most 15 seeds
/// (leaving room for a bump) of at most 32 bytes each.
pub open spec fn seeds_in_bounds(seeds: Seq<Seq<u8>>) -> bool {
    &&& seeds.len() <= 15
    &&& forall|i: int| 0 <= i < seeds.len() ==> (#[trigger] seeds[i]).len() <= 32
}

fn tag_vec(tag: &[u8]) -> (v: Vec<u8>)
    ensures
        v@ == tag@,
{
    vstd::slice::slice_to_vec(tag)
}

fn key_vec(key: &Address) -> (v: Vec<u8>)
    ensures
        v@ == key@,
{
    vstd::slice::slice_to_vec(key.bytes.as_slice())
}

pub fn build_campaign_seeds(collection_mint: &Address) -> (v: Vec<Vec<u8>>)
    ensures
        v.deep_view() == campaign_seeds(collection_mint@),
        seeds_in_bounds(v.deep_view()),
{
    let tag: [u8; 8] = [99, 97, 109, 112, 97, 105, 103, 110];
    let mut v: Vec<Vec<u8>> = Vec::new();
    v.push(tag_vec(tag.as_slice()));
    v.push(key_vec(collection_mint));
    proof {
        assert(v.deep_view() =~~= campaign_seeds(collection_mint@));
    }
    v
}

pub fn build_mint_auth_seeds(campaign_key: &Address) -> (v: Vec<Vec<u8>>)
    ensures
        v.deep_view() == mint_auth_seeds(campaign_key@),
        seeds_in_bounds(v.deep_view()),
{
    let tag: [u8; 9] = [109, 105, 110, 116, 95, 97, 117, 116, 104];
    let mut v: Vec<Vec<u8>> = Vec::new();
    v.push(tag_vec(tag.as_slice()));
    v.push(key_vec(campaign_key));
    proof {
        assert(v.deep_view() =~~= mint_auth_seeds(campaign_key@));
    }
    v
}

pub fn build_collection_auth_seeds(campaign_key: &Address) -> (v: Vec<Vec<u8>>)
    ensures
        v.deep_view() == collection_auth_seeds(campaign_key@),
        seeds_in_bounds(v.deep_view()),
{
    let tag: [u8; 15] = [99, 111, 108, 108, 101, 99, 116, 105, 111, 110, 95, 97, 117, 116, 104];
    let mut v: Vec<Vec<u8>> = Vec::new();
    v.push(tag_vec(tag.as_slice()));
    v.push(key_vec(campaign_key));
    proof {
        assert(v.deep_view() =~~= collection_auth_seeds(campaign_key@));
    }
    v
}

pub fn build_nft_mint_seeds(campaign_key: &Address, index: u64) -> (v: Vec<Vec<u8>>)
    ensures
        v.deep_view() == nft_mint_seeds(campaign_key@, index),
        seeds_in_bounds(v.deep_view()),
{
    let tag: [u8; 8] = [110, 102, 116, 95, 109, 105, 110, 116];
    let mut v: Vec<Vec<u8>> = Vec::new();
    v.push(tag_vec(tag.as_slice()));
    v.push(key_vec(campaign_key));
    v.push(vstd::bytes::u64_to_le_bytes(index));
    proof {
        assert(v.deep_view() =~~= nft_mint_seeds(campaign_key@, index));
    }
    v
}

pub fn build_affiliate_seeds(campaign_key: &Address, affiliate: &Address) -> (v: Vec<Vec<u8>>)
    ensures
        v.deep_view() == affiliate_seeds(campaign_key@, affiliate@),
        seeds_in_bounds(v.deep_view()),
{
    let tag: [u8; 9] = [97, 102, 102, 105, 108, 105, 97, 116, 101];
    let mut v: Vec<Vec<u8>> = Vec::new();
    v.push(tag_vec(tag.as_slice()));
    v.push(key_vec(campaign_key));
    v.push(key_vec(affiliate));
    proof {
        assert(v.deep_view() =~~= affiliate_seeds(campaign_key@, affiliate@));
    }
    v
}

pub fn build_metadata_seeds(registry: &Address, mint: &Address) -> (v: Vec<Vec<u8>>)
    ensures
        v.deep_view() == metadata_seeds(registry@, mint@),
        seeds_in_bounds(v.deep_view()),
{
    let tag: [u8; 8] = [109, 101, 116, 97, 100, 97, 116, 97];
    let mut v: Vec<Vec<u8>> = Vec::new();
    v.push(tag_vec(tag.as_slice()));
    v.push(key_vec(registry));
    v.push(key_vec(mint));
    proof {
        assert(v.deep_view() =~~= metadata_seeds(registry@, mint@));
    }
    v
}

pub fn build_edition_seeds(registry: &Address, mint: &Address) -> (v: Vec<Vec<u8>>)
    ensures
        v.deep_view() == edition_seeds(registry@, mint@),
        seeds_in_bounds(v.deep_view()),
{
    let meta_tag: [u8; 8] = [109, 101, 116, 97, 100, 97, 116, 97];
    let ed_tag: [u8; 7] = [101, 100, 105, 116, 105, 111, 110];
    let mut v: Vec<Vec<u8>> = Vec::new();
    v.push(tag_vec(meta_tag.as_slice()));
    v.push(key_vec(registry));
    v.push(key_vec(mint));
    v.push(tag_vec(ed_tag.as_slice()));
    proof {
        assert(v.deep_view() =~~= edition_seeds(registry@, mint@));
    }
    v
}

} // verus!
