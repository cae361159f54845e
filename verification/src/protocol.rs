//! The mathematical model of the validate/commit accounting protocol.
//!
//! Every operation of the checked-mutate adapter is specified here as a
//! function of the collaborators' models: which result a validator returns,
//! when a commit call may safely run, and what the ownership map looks like
//! afterwards. The adapter's contracts, the laws and the tests all speak in
//! terms of these functions.

use vstd::prelude::*;

use crate::interface::{Ledger, Matcher, MintPolicy};
use crate::types::{Asset, Error, TrackingMode};

verus! {

/// Whether an accrual of `(collection, item)` into the sentinel may be
/// validated and committed: with tracking disabled (no sentinel) always,
/// otherwise only while the item is unowned — minting over an owner would
/// silently overwrite ownership.
pub open spec fn accrue_allowed<L: Ledger>(
    ledger: L,
    sentinel: Option<u64>,
    collection: u64,
    item: u64,
) -> bool {
    sentinel is Some ==> !ledger.owners().contains_key((collection, item))
}

/// Whether a reduction of `(collection, item)` from the sentinel may be
/// committed: with tracking disabled always, otherwise only while the
/// sentinel owns the item.
pub open spec fn reduce_safe<L: Ledger>(
    ledger: L,
    sentinel: Option<u64>,
    collection: u64,
    item: u64,
) -> bool {
    sentinel matches Some(account) ==> ledger.owners().contains_key((collection, item))
        && ledger.owners()[(collection, item)] == account
}

/// Whether a reduction of `(collection, item)` from the sentinel passes
/// validation: beyond [`reduce_safe`], the item must currently be
/// transferable.
pub open spec fn reduce_allowed<L: Ledger>(
    ledger: L,
    sentinel: Option<u64>,
    collection: u64,
    item: u64,
) -> bool {
    sentinel is Some ==> reduce_safe(ledger, sentinel, collection, item) && ledger.transferable(
        collection,
        item,
    )
}

/// The ownership map after an accrual: the sentinel becomes the owner of
/// `(collection, item)`, or nothing happens when tracking is disabled.
pub open spec fn accrue_owners_after(
    owners: Map<(u64, u64), u64>,
    sentinel: Option<u64>,
    collection: u64,
    item: u64,
) -> Map<(u64, u64), u64> {
    match sentinel {
        Some(account) => owners.insert((collection, item), account),
        None => owners,
    }
}

/// The ownership map after a reduction: `(collection, item)` is burned away
/// from the sentinel, or nothing happens when tracking is disabled.
pub open spec fn reduce_owners_after(
    owners: Map<(u64, u64), u64>,
    sentinel: Option<u64>,
    collection: u64,
    item: u64,
) -> Map<(u64, u64), u64> {
    match sentinel {
        Some(account) => owners.remove((collection, item)),
        None => owners,
    }
}

/// The result of `can_check_in`: reject unhandled descriptors; for a home
/// collection validate the reduction, for a foreign one the accrual; let
/// untracked collections pass.
pub open spec fn can_check_in_spec<L: Ledger, M: Matcher, P: MintPolicy>(
    matcher: M,
    policy: P,
    sentinel: Option<u64>,
    ledger: L,
    what: Asset,
) -> Result<(), Error> {
    match matcher.match_spec(what) {
        None => Err(Error::AssetNotHandled),
        Some((collection, item)) => match policy.classify_spec(collection) {
            TrackingMode::TrackLocal => if reduce_allowed(ledger, sentinel, collection, item) {
                Ok(())
            } else {
                Err(Error::NotWithdrawable)
            },
            TrackingMode::TrackNonLocal => if accrue_allowed(ledger, sentinel, collection, item) {
                Ok(())
            } else {
                Err(Error::NotDepositable)
            },
            TrackingMode::Untracked => Ok(()),
        },
    }
}

/// The result of `can_check_out`: as [`can_check_in_spec`] with the accrual
/// and reduction roles swapped.
pub open spec fn can_check_out_spec<L: Ledger, M: Matcher, P: MintPolicy>(
    matcher: M,
    policy: P,
    sentinel: Option<u64>,
    ledger: L,
    what: Asset,
) -> Result<(), Error> {
    match matcher.match_spec(what) {
        None => Err(Error::AssetNotHandled),
        Some((collection, item)) => match policy.classify_spec(collection) {
            TrackingMode::TrackLocal => if accrue_allowed(ledger, sentinel, collection, item) {
                Ok(())
            } else {
                Err(Error::NotDepositable)
            },
            TrackingMode::TrackNonLocal => if reduce_allowed(ledger, sentinel, collection, item) {
                Ok(())
            } else {
                Err(Error::NotWithdrawable)
            },
            TrackingMode::Untracked => Ok(()),
        },
    }
}

/// The precondition of the `check_in` commit call: the state still admits
/// the mutation the call will perform. It is implied by a success of
/// `can_check_in` on the same state, which is how the two-phase protocol
/// discharges it.
pub open spec fn check_in_safe<L: Ledger, M: Matcher, P: MintPolicy>(
    matcher: M,
    policy: P,
    sentinel: Option<u64>,
    ledger: L,
    what: Asset,
) -> bool {
    match matcher.match_spec(what) {
        None => true,
        Some((collection, item)) => match policy.classify_spec(collection) {
            TrackingMode::TrackLocal => reduce_safe(ledger, sentinel, collection, item),
            TrackingMode::TrackNonLocal => accrue_allowed(ledger, sentinel, collection, item),
            TrackingMode::Untracked => true,
        },
    }
}

/// The precondition of the `check_out` commit call, symmetric to
/// [`check_in_safe`].
pub open spec fn check_out_safe<L: Ledger, M: Matcher, P: MintPolicy>(
    matcher: M,
    policy: P,
    sentinel: Option<u64>,
    ledger: L,
    what: Asset,
) -> bool {
    match matcher.match_spec(what) {
        None => true,
        Some((collection, item)) => match policy.classify_spec(collection) {
            TrackingMode::TrackLocal => accrue_allowed(ledger, sentinel, collection, item),
            TrackingMode::TrackNonLocal => reduce_safe(ledger, sentinel, collection, item),
            TrackingMode::Untracked => true,
        },
    }
}

/// The ownership map after `check_in`: reduce for a home collection, accrue
/// for a foreign one, nothing for unhandled descriptors or untracked
/// collections.
pub open spec fn check_in_owners_after<M: Matcher, P: MintPolicy>(
    matcher: M,
    policy: P,
    sentinel: Option<u64>,
    owners: Map<(u64, u64), u64>,
    what: Asset,
) -> Map<(u64, u64), u64> {
    match matcher.match_spec(what) {
        None => owners,
        Some((collection, item)) => match policy.classify_spec(collection) {
            TrackingMode::TrackLocal => reduce_owners_after(owners, sentinel, collection, item),
            TrackingMode::TrackNonLocal => accrue_owners_after(owners, sentinel, collection, item),
            TrackingMode::Untracked => owners,
        },
    }
}

/// The ownership map after `check_out`, symmetric to
/// [`check_in_owners_after`].
pub open spec fn check_out_owners_after<M: Matcher, P: MintPolicy>(
    matcher: M,
    policy: P,
    sentinel: Option<u64>,
    owners: Map<(u64, u64), u64>,
    what: Asset,
) -> Map<(u64, u64), u64> {
    match matcher.match_spec(what) {
        None => owners,
        Some((collection, item)) => match policy.classify_spec(collection) {
            TrackingMode::TrackLocal => accrue_owners_after(owners, sentinel, collection, item),
            TrackingMode::TrackNonLocal => reduce_owners_after(owners, sentinel, collection, item),
            TrackingMode::Untracked => owners,
        },
    }
}

} // verus!
