//! The checked-mutate adapter: the validate/commit accounting protocol for
//! teleport check-in/check-out, plus unconditional deposit and withdraw.
//!
//! The adapter owns its configuration — matcher, resolver, policy and the
//! optional sentinel account — while the ledger, the only mutable state, is
//! passed to each operation. The engine is expected to call a `can_*`
//! validator and, only on success, the paired commit operation before
//! anything else touches the same item; the commit operations carry that
//! expectation as their precondition, which a success of the paired
//! validator implies (see [`crate::laws`]).

use vstd::prelude::*;

use crate::interface::{AccountResolver, Ledger, Matcher, MintPolicy};
use crate::protocol::{
    accrue_allowed, accrue_owners_after, can_check_in_spec, can_check_out_spec, check_in_safe,
    check_in_owners_after, check_out_safe, check_out_owners_after, reduce_allowed,
    reduce_owners_after, reduce_safe,
};
use crate::types::{Asset, Error, ExecContext, Location, MovedAssets, TrackingMode};

verus! {

/// Teleport bookkeeping over a [`Ledger`]: validates and commits accruals
/// into and reductions from the sentinel account, according to each
/// collection's [`TrackingMode`].
pub struct NonFungiblesMutateAdapter<M, R, P> {
    /// Decides which descriptors this adapter handles.
    pub matcher: M,
    /// Maps locations to local accounts for deposit and withdraw.
    pub resolver: R,
    /// Per-collection conservation policy.
    pub policy: P,
    /// The escrow account for teleport bookkeeping. `None` disables
    /// tracking: validators succeed and commits do nothing, for every mode.
    pub sentinel: Option<u64>,
}

impl<M: Matcher, R: AccountResolver, P: MintPolicy> NonFungiblesMutateAdapter<M, R, P> {
    /// Validate an accrual of `(collection, item)` into the sentinel.
    fn can_accrue_checked<L: Ledger>(&self, ledger: &L, collection: u64, item: u64) -> (r: Result<
        (),
        Error,
    >)
        ensures
            r == (if accrue_allowed(*ledger, self.sentinel, collection, item) {
                Ok::<(), Error>(())
            } else {
                Err::<(), Error>(Error::NotDepositable)
            }),
    {
        if self.sentinel.is_some() {
            if ledger.owner(collection, item).is_some() {
                return Err(Error::NotDepositable);
            }
        }
        Ok(())
    }

    /// Validate a reduction of `(collection, item)` from the sentinel.
    fn can_reduce_checked<L: Ledger>(&self, ledger: &L, collection: u64, item: u64) -> (r: Result<
        (),
        Error,
    >)
        ensures
            r == (if reduce_allowed(*ledger, self.sentinel, collection, item) {
                Ok::<(), Error>(())
            } else {
                Err::<(), Error>(Error::NotWithdrawable)
            }),
    {
        if let Some(sentinel) = self.sentinel {
            match ledger.owner(collection, item) {
                Some(owner) => {
                    if owner != sentinel {
                        return Err(Error::NotWithdrawable);
                    }
                },
                None => {
                    return Err(Error::NotWithdrawable);
                },
            }
            if !ledger.can_transfer(collection, item) {
                return Err(Error::NotWithdrawable);
            }
        }
        Ok(())
    }

    /// Commit an accrual: mint `(collection, item)` into the sentinel. The
    /// mint cannot fail here — the precondition is what its paired
    /// validation established.
    fn accrue_checked<L: Ledger>(&self, ledger: &mut L, collection: u64, item: u64)
        requires
            accrue_allowed(*old(ledger), self.sentinel, collection, item),
        ensures
            final (ledger).owners() == accrue_owners_after(
                old(ledger).owners(),
                self.sentinel,
                collection,
                item,
            ),
            forall|c2: u64, i2: u64| #[trigger]
                final (ledger).transferable(c2, i2) == old(ledger).transferable(c2, i2),
    {
        if let Some(sentinel) = self.sentinel {
            let minted = ledger.mint_into(collection, item, sentinel);
            assert(minted is Ok);
        }
    }

    /// Commit a reduction: burn `(collection, item)` away from the
    /// sentinel. The burn cannot fail here — the precondition is what its
    /// paired validation established.
    fn reduce_checked<L: Ledger>(&self, ledger: &mut L, collection: u64, item: u64)
        requires
            reduce_safe(*old(ledger), self.sentinel, collection, item),
        ensures
            final (ledger).owners() == reduce_owners_after(
                old(ledger).owners(),
                self.sentinel,
                collection,
                item,
            ),
            forall|c2: u64, i2: u64| #[trigger]
                final (ledger).transferable(c2, i2) == old(ledger).transferable(c2, i2),
    {
        if self.sentinel.is_some() {
            let burned = ledger.burn(collection, item, None);
            assert(burned is Ok);
        }
    }

    /// Validate that `what` may be checked in from `origin`: for a home
    /// collection the sentinel must own the item and it must be
    /// transferable; for a foreign collection the item must be unowned;
    /// untracked collections always pass.
    pub fn can_check_in<L: Ledger>(
        &self,
        ledger: &L,
        origin: &Location,
        what: &Asset,
        context: &ExecContext,
    ) -> (r: Result<(), Error>)
        ensures
            r == can_check_in_spec(self.matcher, self.policy, self.sentinel, *ledger, *what),
    {
        let (collection, item) = match self.matcher.matches(what) {
            Ok(pair) => pair,
            Err(e) => {
                return Err(e);
            },
        };
        match self.policy.classify(collection) {
            TrackingMode::TrackLocal => self.can_reduce_checked(ledger, collection, item),
            TrackingMode::TrackNonLocal => self.can_accrue_checked(ledger, collection, item),
            TrackingMode::Untracked => Ok(()),
        }
    }

    /// Commit a check-in of `what` from `origin`. Must only be called
    /// right after a success of [`Self::can_check_in`] on the same state;
    /// the precondition is implied by that success.
    pub fn check_in<L: Ledger>(
        &self,
        ledger: &mut L,
        origin: &Location,
        what: &Asset,
        context: &ExecContext,
    )
        requires
            check_in_safe(self.matcher, self.policy, self.sentinel, *old(ledger), *what),
        ensures
            final (ledger).owners() == check_in_owners_after(
                self.matcher,
                self.policy,
                self.sentinel,
                old(ledger).owners(),
                *what,
            ),
            forall|c2: u64, i2: u64| #[trigger]
                final (ledger).transferable(c2, i2) == old(ledger).transferable(c2, i2),
    {
        if let Ok((collection, item)) = self.matcher.matches(what) {
            match self.policy.classify(collection) {
                TrackingMode::TrackLocal => self.reduce_checked(ledger, collection, item),
                TrackingMode::TrackNonLocal => self.accrue_checked(ledger, collection, item),
                TrackingMode::Untracked => (),
            }
        }
    }

    /// Validate that `what` may be checked out towards `dest`: for a home
    /// collection the item must be unowned; for a foreign collection the
    /// sentinel must own the item and it must be transferable; untracked
    /// collections always pass.
    pub fn can_check_out<L: Ledger>(
        &self,
        ledger: &L,
        dest: &Location,
        what: &Asset,
        context: &ExecContext,
    ) -> (r: Result<(), Error>)
        ensures
            r == can_check_out_spec(self.matcher, self.policy, self.sentinel, *ledger, *what),
    {
        let (collection, item) = match self.matcher.matches(what) {
            Ok(pair) => pair,
            Err(e) => {
                return Err(e);
            },
        };
        match self.policy.classify(collection) {
            TrackingMode::TrackLocal => self.can_accrue_checked(ledger, collection, item),
            TrackingMode::TrackNonLocal => self.can_reduce_checked(ledger, collection, item),
            TrackingMode::Untracked => Ok(()),
        }
    }

    /// Commit a check-out of `what` towards `dest`. Must only be called
    /// right after a success of [`Self::can_check_out`] on the same state;
    /// the precondition is implied by that success.
    pub fn check_out<L: Ledger>(
        &self,
        ledger: &mut L,
        dest: &Location,
        what: &Asset,
        context: &ExecContext,
    )
        requires
            check_out_safe(self.matcher, self.policy, self.sentinel, *old(ledger), *what),
        ensures
            final (ledger).owners() == check_out_owners_after(
                self.matcher,
                self.policy,
                self.sentinel,
                old(ledger).owners(),
                *what,
            ),
            forall|c2: u64, i2: u64| #[trigger]
                final (ledger).transferable(c2, i2) == old(ledger).transferable(c2, i2),
    {
        if let Ok((collection, item)) = self.matcher.matches(what) {
            match self.policy.classify(collection) {
                TrackingMode::TrackLocal => self.accrue_checked(ledger, collection, item),
                TrackingMode::TrackNonLocal => self.reduce_checked(ledger, collection, item),
                TrackingMode::Untracked => (),
            }
        }
    }

    /// Unconditionally mint `what` into the account `who` resolves to. No
    /// conservation check is performed, whatever the collection's tracking
    /// mode: deposits model a movement kind distinct from teleports.
    pub fn deposit_asset<L: Ledger>(
        &self,
        ledger: &mut L,
        what: &Asset,
        who: &Location,
        context: Option<&ExecContext>,
    ) -> (r: Result<(), Error>)
        ensures
            (match self.matcher.match_spec(*what) {
                None => r == Err::<(), Error>(Error::AssetNotHandled) && final (ledger).owners()
                    == old(ledger).owners(),
                Some((collection, item)) => (match self.resolver.resolve_spec(*who) {
                    None => r == Err::<(), Error>(Error::AccountConversionFailed) && final (
                    ledger).owners() == old(ledger).owners(),
                    Some(account) => (if !old(ledger).owners().contains_key((collection, item)) {
                        r == Ok::<(), Error>(()) && final (ledger).owners() == old(
                            ledger,
                        ).owners().insert((collection, item), account)
                    } else {
                        (r matches Err(Error::TransactionFailed(_))) && final (ledger).owners()
                            == old(ledger).owners()
                    }),
                }),
            }),
            forall|c2: u64, i2: u64| #[trigger]
                final (ledger).transferable(c2, i2) == old(ledger).transferable(c2, i2),
    {
        let (collection, item) = match self.matcher.matches(what) {
            Ok(pair) => pair,
            Err(e) => {
                return Err(e);
            },
        };
        let account = match self.resolver.resolve(who) {
            Some(account) => account,
            None => {
                return Err(Error::AccountConversionFailed);
            },
        };
        match ledger.mint_into(collection, item, account) {
            Ok(()) => Ok(()),
            Err(e) => Err(Error::TransactionFailed(e)),
        }
    }

    /// Unconditionally burn `what` out of the account `who` resolves to,
    /// returning the descriptor as the moved assets. The burn names the
    /// resolved account as the expected owner, so it fails unless that
    /// account owns the item.
    pub fn withdraw_asset<L: Ledger>(
        &self,
        ledger: &mut L,
        what: &Asset,
        who: &Location,
        maybe_context: Option<&ExecContext>,
    ) -> (r: Result<MovedAssets, Error>)
        ensures
            (match self.resolver.resolve_spec(*who) {
                None => r == Err::<MovedAssets, Error>(Error::AccountConversionFailed) && final (
                ledger).owners() == old(ledger).owners(),
                Some(account) => (match self.matcher.match_spec(*what) {
                    None => r == Err::<MovedAssets, Error>(Error::AssetNotHandled) && final (
                    ledger).owners() == old(ledger).owners(),
                    Some((collection, item)) => (if old(ledger).owners().contains_key(
                        (collection, item),
                    ) && old(ledger).owners()[(collection, item)] == account {
                        r == Ok::<MovedAssets, Error>(MovedAssets { asset: *what }) && final (
                        ledger).owners() == old(ledger).owners().remove((collection, item))
                    } else {
                        (r matches Err(Error::TransactionFailed(_))) && final (ledger).owners()
                            == old(ledger).owners()
                    }),
                }),
            }),
            forall|c2: u64, i2: u64| #[trigger]
                final (ledger).transferable(c2, i2) == old(ledger).transferable(c2, i2),
    {
        let account = match self.resolver.resolve(who) {
            Some(account) => account,
            None => {
                return Err(Error::AccountConversionFailed);
            },
        };
        let (collection, item) = match self.matcher.matches(what) {
            Ok(pair) => pair,
            Err(e) => {
                return Err(e);
            },
        };
        match ledger.burn(collection, item, Some(account)) {
            Ok(()) => Ok(MovedAssets { asset: *what }),
            Err(e) => Err(Error::TransactionFailed(e)),
        }
    }
}

} // verus!
