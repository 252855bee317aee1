//! The error kinds with which a request is rejected.
//!
//! Every precondition is checked before any externally visible mutation;
//! the first violated one aborts the whole request with one of these codes
//! and no partial effect.

use vstd::prelude::*;

verus! {

/// Why a campaign-creation or mint request was rejected.
#[derive(Clone, Copy, Debug, PartialEq, Eq, Structural)]
pub enum ErrorCode {
    /// The affiliate fee is outside 0..=10000 basis points.
    InvalidFee,
    /// The campaign's supply is exhausted.
    SoldOut,
    /// A checked arithmetic operation overflowed or underflowed.
    MathOverflow,
    /// The supplied token address does not equal the canonical derivation.
    InvalidMintAccount,
    /// The supplied metadata address does not equal the canonical derivation.
    InvalidMetadata,
    /// The supplied master-edition address does not equal the canonical
    /// derivation.
    InvalidMasterEdition,
    /// A supplied collection account does not equal the canonical derivation
    /// from the campaign's collection reference.
    InvalidCollectionMetadata,
    /// A campaign already exists for this collection reference.
    CampaignAlreadyExists,
}

} // verus!
