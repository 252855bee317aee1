//! Validating collection references before trusting them.
//!
//! Before the workflow attests that a new token belongs to the campaign's
//! parent collection, the supplied collection accounts are recomputed from
//! the campaign's collection reference and compared; any mismatch aborts
//! the mint before the irreversible attestation is requested.

use vstd::prelude::*;

use crate::address::address_eq;
use crate::error::ErrorCode;
use crate::state::Campaign;
use crate::workflow::{
    canonical_edition_address, canonical_metadata_address, spec_collection_ok, ProcessMint,
};

verus! {

/// Validate that the supplied collection metadata and master-edition
/// addresses equal the canonical derivations from the campaign's
/// collection reference.
pub fn verify_collection_accounts(campaign: &Campaign, accounts: &ProcessMint) -> (r: Result<
    (),
    ErrorCode,
>)
    ensures
        r is Ok <==> spec_collection_ok(*campaign, *accounts),
        r is Err ==> r == Err::<(), ErrorCode>(ErrorCode::InvalidCollectionMetadata),
{
    let expected_metadata = canonical_metadata_address(
        &accounts.token_metadata_program,
        &campaign.collection_mint,
    );
    if !address_eq(&accounts.collection_metadata, &expected_metadata) {
        return Err(ErrorCode::InvalidCollectionMetadata);
    }
    let expected_edition = canonical_edition_address(
        &accounts.token_metadata_program,
        &campaign.collection_mint,
    );
    if !address_eq(&accounts.collection_master_edition, &expected_edition) {
        return Err(ErrorCode::InvalidCollectionMetadata);
    }
    Ok(())
}

} // verus!
