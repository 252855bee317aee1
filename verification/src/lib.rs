//! A marketplace for limited-edition collectible tokens sold through
//! resellable referral links.
//!
//! A creator configures a campaign: a fixed unit price, a referral share in
//! basis points, and a maximum supply.  Each purchase splits the payment
//! between the referring affiliate and the creator, issues one new token to
//! the buyer, registers its descriptive metadata, attests membership in the
//! campaign's parent collection, and updates per-affiliate counters — all as
//! one all-or-nothing unit of work.
//!
//! Privileged sub-operations are authorized by deterministically derived
//! program addresses rather than stored secrets: only a small bump seed is
//! persisted, and the authority is re-derived and checked on every mint.

pub mod address;
pub mod authority;
pub mod collection;
pub mod error;
pub mod ledger;
pub mod payment;
pub mod registry;
pub mod seeds;
pub mod state;
pub mod workflow;
