//! A checked cross-ledger adapter for non-fungible assets.
//!
//! The adapter lets a message-execution engine move ownership of uniquely
//! identified assets while enforcing a conservation invariant across
//! movements that cross ledger boundaries (teleports). A single sentinel
//! account serves as an escrow ledger of net outstanding teleports; a
//! per-collection [`types::TrackingMode`] decides which side of the boundary
//! is authoritative for a collection.
//!
//! The concrete ledger, descriptor matching, location resolution and policy
//! lookup are collaborators behind the traits of [`interface`]; the crate
//! supplies verified in-memory implementations of each so that the protocol
//! can be exercised end to end.

pub mod combined_adapter;
pub mod interface;
pub mod laws;
pub mod ledger;
pub mod mutate_adapter;
pub mod protocol;
pub mod providers;
pub mod transfer_adapter;
pub mod types;
