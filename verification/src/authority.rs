//! Capability addresses derived from public seed paths.
//!
//! The host ledger can derive, for any seed path and owning program, an
//! address that has no corresponding private key.  Only the owning program
//! can act as that address, by presenting the seed path; anyone can
//! recompute it.  A campaign stores only the small bump seed returned by the
//! derivation, and the workflow re-derives its authorities from it on every
//! mint — no secret is ever persisted.

use vstd::prelude::*;

use crate::address::{address_eq, Address};
use crate::seeds::seeds_in_bounds;

verus! {

/// The address and bump seed that the host derivation returns for a seed
/// path under an owning program: a function of its arguments alone.
pub uninterp spec fn derived_address(seeds: Seq<Seq<u8>>, owner: Seq<u8>) -> (Seq<u8>, u8);

/// The exact derivation of a full seed path (bump included) under an owning
/// program: `Some` address when the digest is off the curve, `None` when it
/// is not; a function of its arguments alone.
pub uninterp spec fn exact_derived_address(seeds: Seq<Seq<u8>>, owner: Seq<u8>) -> Option<
    Seq<u8>,
>;

/// Relies on solana_program's `Pubkey::find_program_address`: searching bump
/// seeds from 255 downward, it returns the first whose exact derivation is
/// off the curve, together with the derived address; the result depends on
/// the seed path and program alone.
#[verifier::external_body]
pub(crate) fn find_derived_address(seeds: &Vec<Vec<u8>>, owner: &Address) -> (r: (Address, u8))
    requires
        seeds_in_bounds(seeds.deep_view()),
    ensures
        (r.0@, r.1) == derived_address(seeds.deep_view(), owner@),
        exact_derived_address(seeds.deep_view().push(seq![r.1]), owner@) == Some(r.0@),
{
    let seed_slices: Vec<&[u8]> = seeds.iter().map(|s| s.as_slice()).collect();
    let (key, bump) = solana_program::pubkey::Pubkey::find_program_address(
        &seed_slices,
        &solana_program::pubkey::Pubkey::new_from_array(owner.bytes),
    );
    (Address { bytes: key.to_bytes() }, bump)
}

/// Relies on solana_program's `Pubkey::create_program_address`: it hashes
/// the seed path with the program and a fixed marker, returning the address
/// unless the digest lies on the curve; the result depends on the seed path
/// and program alone.
#[verifier::external_body]
pub(crate) fn create_derived_address(seeds: &Vec<Vec<u8>>, owner: &Address) -> (r: Option<
    Address,
>)
    requires
        seeds.deep_view().len() <= 16,
        forall|i: int|
            0 <= i < seeds.deep_view().len() ==> (#[trigger] seeds.deep_view()[i]).len() <= 32,
    ensures
        match r {
            Some(a) => exact_derived_address(seeds.deep_view(), owner@) == Some(a@),
            None => exact_derived_address(seeds.deep_view(), owner@) is None,
        },
{
    let seed_slices: Vec<&[u8]> = seeds.iter().map(|s| s.as_slice()).collect();
    match solana_program::pubkey::Pubkey::create_program_address(
        &seed_slices,
        &solana_program::pubkey::Pubkey::new_from_array(owner.bytes),
    ) {
        Ok(key) => Some(Address { bytes: key.to_bytes() }),
        Err(_) => None,
    }
}

/// Derive the capability address for a seed path under an owning program,
/// together with the bump seed that later verifications must resupply.
pub fn derive_authority(seeds: &Vec<Vec<u8>>, owner: &Address) -> (r: (Address, u8))
    requires
        seeds_in_bounds(seeds.deep_view()),
    ensures
        (r.0@, r.1) == derived_address(seeds.deep_view(), owner@),
        exact_derived_address(seeds.deep_view().push(seq![r.1]), owner@) == Some(r.0@),
{
    find_derived_address(seeds, owner)
}

/// Re-derive the capability address of a seed path from a stored bump
/// seed: the exact derivation of the path with the bump appended.
pub fn rederive_authority(seeds: Vec<Vec<u8>>, bump: u8, owner: &Address) -> (r: Option<Address>)
    requires
        seeds_in_bounds(seeds.deep_view()),
    ensures
        match r {
            Some(a) => exact_derived_address(seeds.deep_view().push(seq![bump]), owner@) == Some(
                a@,
            ),
            None => exact_derived_address(seeds.deep_view().push(seq![bump]), owner@) is None,
        },
{
    let ghost base = seeds.deep_view();
    let mut with_bump = seeds;
    let mut bump_seed: Vec<u8> = Vec::new();
    bump_seed.push(bump);
    with_bump.push(bump_seed);
    proof {
        assert(with_bump.deep_view() =~~= base.push(seq![bump]));
    }
    create_derived_address(&with_bump, owner)
}

/// Recompute the exact derivation of `seeds` plus the supplied bump seed and
/// compare it against a candidate address.  A mismatch is a hard
/// authorization failure: the candidate is not the capability address of
/// this seed path.
pub fn verify_authority(candidate: &Address, seeds: Vec<Vec<u8>>, bump: u8, owner: &Address) -> (r:
    bool)
    requires
        seeds_in_bounds(seeds.deep_view()),
    ensures
        r == (exact_derived_address(seeds.deep_view().push(seq![bump]), owner@) == Some(
            candidate@,
        )),
{
    match rederive_authority(seeds, bump, owner) {
        Some(derived) => address_eq(&derived, candidate),
        None => false,
    }
}

} // verus!
