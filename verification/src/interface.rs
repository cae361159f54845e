//! The traits the adapter is composed over.
//!
//! These are the adapter's consumed interfaces: ownership storage
//! ([`Ledger`]), descriptor matching ([`Matcher`]), location resolution
//! ([`AccountResolver`]) and the per-collection policy ([`MintPolicy`]).
//! Each trait pairs a mathematical model (spec functions) with executable
//! methods whose contracts tie them to the model; implementations are held
//! to those contracts. The crate ships verified implementations of every
//! trait, so the protocol proofs rest on checked code.

use vstd::prelude::*;

use crate::types::{Asset, Error, LedgerError, Location, TrackingMode};

verus! {

/// Storage of asset ownership. An item `(collection, item)` has at most one
/// owning account, or none; the map `owners()` is the authoritative model.
///
/// Mint, burn and transfer succeed exactly when their documented
/// precondition holds of the current state, and each changes the ownership
/// map by exactly one binding; this is what makes a validate-then-commit
/// protocol against the ledger sound.
pub trait Ledger: Sized {
    /// Which account owns which item. An item absent from the map is
    /// unowned (non-existent).
    spec fn owners(&self) -> Map<(u64, u64), u64>;

    /// Whether the item may currently be moved or burned away from its
    /// owner.
    spec fn transferable(&self, collection: u64, item: u64) -> bool;

    /// The current owner of `(collection, item)`, or `None` if unowned.
    fn owner(&self, collection: u64, item: u64) -> (r: Option<u64>)
        ensures
            r == (if self.owners().contains_key((collection, item)) {
                Some(self.owners()[(collection, item)])
            } else {
                None::<u64>
            }),
    ;

    /// Whether `(collection, item)` may currently be transferred.
    fn can_transfer(&self, collection: u64, item: u64) -> (r: bool)
        ensures
            r == self.transferable(collection, item),
    ;

    /// Create `(collection, item)` owned by `account`. Succeeds exactly
    /// when the item is currently unowned; on failure the state is
    /// unchanged.
    fn mint_into(&mut self, collection: u64, item: u64, account: u64) -> (r: Result<
        (),
        LedgerError,
    >)
        ensures
            r is Ok <==> !old(self).owners().contains_key((collection, item)),
            r is Ok ==> final (self).owners() == old(self).owners().insert(
                (collection, item),
                account,
            ),
            r is Err ==> final (self).owners() == old(self).owners(),
            forall|c2: u64, i2: u64| #[trigger]
                final (self).transferable(c2, i2) == old(self).transferable(c2, i2),
    ;

    /// Destroy `(collection, item)`. When `expected_owner` is given the
    /// burn succeeds only if that account owns the item; otherwise any
    /// owned item can be burned. On failure the state is unchanged.
    fn burn(&mut self, collection: u64, item: u64, expected_owner: Option<u64>) -> (r: Result<
        (),
        LedgerError,
    >)
        ensures
            r is Ok <==> old(self).owners().contains_key((collection, item)) && (
            expected_owner matches Some(account) ==> old(self).owners()[(collection, item)]
                == account),
            r is Ok ==> final (self).owners() == old(self).owners().remove((collection, item)),
            r is Err ==> final (self).owners() == old(self).owners(),
            forall|c2: u64, i2: u64| #[trigger]
                final (self).transferable(c2, i2) == old(self).transferable(c2, i2),
    ;

    /// Move `(collection, item)` to `destination`. Succeeds exactly when
    /// the item is owned and transferable; on failure the state is
    /// unchanged.
    fn transfer(&mut self, collection: u64, item: u64, destination: u64) -> (r: Result<
        (),
        LedgerError,
    >)
        ensures
            r is Ok <==> old(self).owners().contains_key((collection, item)) && old(
                self,
            ).transferable(collection, item),
            r is Ok ==> final (self).owners() == old(self).owners().insert(
                (collection, item),
                destination,
            ),
            r is Err ==> final (self).owners() == old(self).owners(),
            forall|c2: u64, i2: u64| #[trigger]
                final (self).transferable(c2, i2) == old(self).transferable(c2, i2),
    ;
}

/// Maps an asset descriptor to the `(collection, item)` pair it denotes, or
/// reports the asset as unhandled. The model `match_spec` pins the result of
/// `matches` completely.
pub trait Matcher: Sized {
    /// The pair a descriptor denotes, or `None` when the matcher does not
    /// handle it.
    spec fn match_spec(&self, asset: Asset) -> Option<(u64, u64)>;

    /// Resolve a descriptor, failing with [`Error::AssetNotHandled`]
    /// exactly when the matcher does not handle it.
    fn matches(&self, asset: &Asset) -> (r: Result<(u64, u64), Error>)
        ensures
            r == (match self.match_spec(*asset) {
                Some(pair) => Ok::<(u64, u64), Error>(pair),
                None => Err::<(u64, u64), Error>(Error::AssetNotHandled),
            }),
    ;
}

/// Maps a location to a local account identifier, or reports the location
/// as unresolvable.
pub trait AccountResolver: Sized {
    /// The account a location stands for, if any.
    spec fn resolve_spec(&self, location: Location) -> Option<u64>;

    /// Resolve a location to an account.
    fn resolve(&self, location: &Location) -> (r: Option<u64>)
        ensures
            r == self.resolve_spec(*location),
    ;
}

/// Per-collection lookup of the conservation policy.
pub trait MintPolicy: Sized {
    /// The tracking mode configured for a collection.
    spec fn classify_spec(&self, collection: u64) -> TrackingMode;

    /// Look up the tracking mode of `collection`.
    fn classify(&self, collection: u64) -> (r: TrackingMode)
        ensures
            r == self.classify_spec(collection),
    ;
}

} // verus!
