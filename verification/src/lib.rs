//! Matching-and-settlement core of an NFT marketplace.
//!
//! The library keeps competing asks (listings) and bids (offers) for
//! ownership tokens, matches them under two sale policies (fixed price and
//! auction), and computes the payout split (network fee, royalty, finder's
//! fee, seller proceeds) when a match occurs.  Everything the chain itself
//! does — queries for token ownership, approvals, royalty terms, and the
//! delivery of the produced transfer messages — is passed in and out of the
//! library as plain values, so the whole decision and settlement logic is
//! verified.

pub mod contract;
pub mod error;
pub mod fees;
pub mod msg;
pub mod state;
