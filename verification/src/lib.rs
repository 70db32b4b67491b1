//! Message construction for a Gravity bridge orchestrator.
//!
//! The crate turns observed Ethereum events into an ordered, bounded batch of
//! attestation claims, signs confirmations of validator sets, transaction
//! batches and logic calls, and validates outbound transfers. Every function
//! returns plain values describing the transaction to submit; talking to the
//! chains is left to the caller.

pub mod abi;
pub mod amount;
pub mod artifacts;
pub mod batch;
pub mod claims;
pub mod coin;
pub mod confirm;
pub mod copy;
pub mod eth;
pub mod events;
pub mod hex;
pub mod msgs;
pub mod oneshot;
pub mod transfer;
