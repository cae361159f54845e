//! Plain data model for the adapter: asset descriptors, locations, the
//! per-collection tracking policy, and the error taxonomy.
//!
//! Collections, items, accounts and locations are identified by opaque
//! integers; the adapter never interprets them beyond equality.

use vstd::prelude::*;

verus! {

/// A non-fungible asset descriptor, as handed to the adapter by the
/// message-execution engine. A `Matcher` decides whether a descriptor is
/// handled and maps it to a `(collection, item)` pair.
#[derive(Clone, Copy, Debug, PartialEq, Eq, Structural)]
pub struct Asset {
    /// Identifies the asset class the descriptor speaks of.
    pub id: u64,
    /// Identifies the concrete instance within that class.
    pub instance: u64,
}

/// A location on some ledger, used as the source or destination of a
/// movement. An `AccountResolver` decides whether a location corresponds to
/// a local account.
#[derive(Clone, Copy, Debug, PartialEq, Eq, Structural)]
pub struct Location {
    pub id: u64,
}

/// Opaque execution context handed along by the engine. It is carried for
/// interface symmetry and diagnostics only and never influences control flow.
#[derive(Clone, Copy, Debug, PartialEq, Eq, Structural)]
pub struct ExecContext {
    pub message_id: u64,
}

/// Per-collection conservation policy.
#[derive(Clone, Copy, Debug, PartialEq, Eq, Structural)]
pub enum TrackingMode {
    /// No teleport bookkeeping for this collection.
    Untracked,
    /// This ledger is the collection's home: outbound teleports accrue into
    /// the sentinel, inbound ones reduce from it.
    TrackLocal,
    /// The collection's home is elsewhere: inbound teleports accrue into the
    /// sentinel, outbound ones reduce from it.
    TrackNonLocal,
}

/// Reason a ledger operation was rejected by the ledger itself.
#[derive(Clone, Copy, Debug, PartialEq, Eq, Structural)]
pub enum LedgerError {
    /// A mint targeted an item that already has an owner.
    AlreadyExists,
    /// A burn or transfer targeted an item with no owner.
    NotFound,
    /// A burn named an expected owner that does not own the item.
    WrongOwner,
    /// A transfer targeted an item that is not currently transferable.
    NotTransferable,
}

/// The adapter's error taxonomy. Every variant is recoverable and returned
/// to the caller; the adapter's operations never panic.
#[derive(Clone, Copy, Debug, PartialEq, Eq, Structural)]
pub enum Error {
    /// The matcher does not handle the descriptor.
    AssetNotHandled,
    /// The location could not be resolved to a local account.
    AccountConversionFailed,
    /// An accrual was attempted on an item that already has an owner.
    NotDepositable,
    /// A reduction was attempted while the sentinel does not own the item,
    /// or the item is not transferable.
    NotWithdrawable,
    /// The ledger rejected a mint, burn or transfer; the reason is carried
    /// through unchanged.
    TransactionFailed(LedgerError),
}

/// The assets an operation moved, returned on success by transfers and
/// withdrawals: the original descriptor, ownership already updated on the
/// ledger.
#[derive(Clone, Copy, Debug, PartialEq, Eq, Structural)]
pub struct MovedAssets {
    pub asset: Asset,
}

} // verus!
