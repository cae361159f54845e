//! The combined adapter: the full operation set, by pure delegation.
//!
//! Transfers go to the [`NonFungiblesTransferAdapter`], everything else to
//! the [`NonFungiblesMutateAdapter`]. No state or logic of its own; each
//! operation's contract is the delegate's contract, stated over the
//! delegate's configuration.

use vstd::prelude::*;

use crate::interface::{AccountResolver, Ledger, Matcher, MintPolicy};
use crate::mutate_adapter::NonFungiblesMutateAdapter;
use crate::protocol::{
    can_check_in_spec, can_check_out_spec, check_in_safe, check_in_owners_after, check_out_safe,
    check_out_owners_after,
};
use crate::transfer_adapter::NonFungiblesTransferAdapter;
use crate::types::{Asset, Error, ExecContext, Location, MovedAssets};

verus! {

/// Handles transfers and teleport bookkeeping alike. Works for everything.
///
/// The two delegates are configured independently; to give both the same
/// matcher and resolver, construct them from equal values.
pub struct NonFungiblesAdapter<M, R, P> {
    /// Handles `transfer_asset`.
    pub transferor: NonFungiblesTransferAdapter<M, R>,
    /// Handles the check-in/check-out protocol, deposits and withdrawals.
    pub mutator: NonFungiblesMutateAdapter<M, R, P>,
}

impl<M: Matcher, R: AccountResolver, P: MintPolicy> NonFungiblesAdapter<M, R, P> {
    /// See [`NonFungiblesMutateAdapter::can_check_in`].
    pub fn can_check_in<L: Ledger>(
        &self,
        ledger: &L,
        origin: &Location,
        what: &Asset,
        context: &ExecContext,
    ) -> (r: Result<(), Error>)
        ensures
            r == can_check_in_spec(
                self.mutator.matcher,
                self.mutator.policy,
                self.mutator.sentinel,
                *ledger,
                *what,
            ),
    {
        self.mutator.can_check_in(ledger, origin, what, context)
    }

    /// See [`NonFungiblesMutateAdapter::check_in`].
    pub fn check_in<L: Ledger>(
        &self,
        ledger: &mut L,
        origin: &Location,
        what: &Asset,
        context: &ExecContext,
    )
        requires
            check_in_safe(
                self.mutator.matcher,
                self.mutator.policy,
                self.mutator.sentinel,
                *old(ledger),
                *what,
            ),
        ensures
            final (ledger).owners() == check_in_owners_after(
                self.mutator.matcher,
                self.mutator.policy,
                self.mutator.sentinel,
                old(ledger).owners(),
                *what,
            ),
            forall|c2: u64, i2: u64| #[trigger]
                final (ledger).transferable(c2, i2) == old(ledger).transferable(c2, i2),
    {
        self.mutator.check_in(ledger, origin, what, context)
    }

    /// See [`NonFungiblesMutateAdapter::can_check_out`].
    pub fn can_check_out<L: Ledger>(
        &self,
        ledger: &L,
        dest: &Location,
        what: &Asset,
        context: &ExecContext,
    ) -> (r: Result<(), Error>)
        ensures
            r == can_check_out_spec(
                self.mutator.matcher,
                self.mutator.policy,
                self.mutator.sentinel,
                *ledger,
                *what,
            ),
    {
        self.mutator.can_check_out(ledger, dest, what, context)
    }

    /// See [`NonFungiblesMutateAdapter::check_out`].
    pub fn check_out<L: Ledger>(
        &self,
        ledger: &mut L,
        dest: &Location,
        what: &Asset,
        context: &ExecContext,
    )
        requires
            check_out_safe(
                self.mutator.matcher,
                self.mutator.policy,
                self.mutator.sentinel,
                *old(ledger),
                *what,
            ),
        ensures
            final (ledger).owners() == check_out_owners_after(
                self.mutator.matcher,
                self.mutator.policy,
                self.mutator.sentinel,
                old(ledger).owners(),
                *what,
            ),
            forall|c2: u64, i2: u64| #[trigger]
                final (ledger).transferable(c2, i2) == old(ledger).transferable(c2, i2),
    {
        self.mutator.check_out(ledger, dest, what, context)
    }

    /// See [`NonFungiblesMutateAdapter::deposit_asset`].
    pub fn deposit_asset<L: Ledger>(
        &self,
        ledger: &mut L,
        what: &Asset,
        who: &Location,
        context: Option<&ExecContext>,
    ) -> (r: Result<(), Error>)
        ensures
            (match self.mutator.matcher.match_spec(*what) {
                None => r == Err::<(), Error>(Error::AssetNotHandled) && final (ledger).owners()
                    == old(ledger).owners(),
                Some((collection, item)) => (match self.mutator.resolver.resolve_spec(*who) {
                    None => r == Err::<(), Error>(Error::AccountConversionFailed) && final (
                    ledger).owners() == old(ledger).owners(),
                    Some(account) => (if !old(ledger).owners().contains_key((collection, item)) {
                        r == Ok::<(), Error>(()) && final (ledger).owners() == old(
                            ledger,
                        ).owners().insert((collection, item), account)
                    } else {
                        (r matches Err(Error::TransactionFailed(_))) && final (ledger).owners()
                            == old(ledger).owners()
                    }),
                }),
            }),
            forall|c2: u64, i2: u64| #[trigger]
                final (ledger).transferable(c2, i2) == old(ledger).transferable(c2, i2),
    {
        self.mutator.deposit_asset(ledger, what, who, context)
    }

    /// See [`NonFungiblesMutateAdapter::withdraw_asset`].
    pub fn withdraw_asset<L: Ledger>(
        &self,
        ledger: &mut L,
        what: &Asset,
        who: &Location,
        maybe_context: Option<&ExecContext>,
    ) -> (r: Result<MovedAssets, Error>)
        ensures
            (match self.mutator.resolver.resolve_spec(*who) {
                None => r == Err::<MovedAssets, Error>(Error::AccountConversionFailed) && final (
                ledger).owners() == old(ledger).owners(),
                Some(account) => (match self.mutator.matcher.match_spec(*what) {
                    None => r == Err::<MovedAssets, Error>(Error::AssetNotHandled) && final (
                    ledger).owners() == old(ledger).owners(),
                    Some((collection, item)) => (if old(ledger).owners().contains_key(
                        (collection, item),
                    ) && old(ledger).owners()[(collection, item)] == account {
                        r == Ok::<MovedAssets, Error>(MovedAssets { asset: *what }) && final (
                        ledger).owners() == old(ledger).owners().remove((collection, item))
                    } else {
                        (r matches Err(Error::TransactionFailed(_))) && final (ledger).owners()
                            == old(ledger).owners()
                    }),
                }),
            }),
            forall|c2: u64, i2: u64| #[trigger]
                final (ledger).transferable(c2, i2) == old(ledger).transferable(c2, i2),
    {
        self.mutator.withdraw_asset(ledger, what, who, maybe_context)
    }

    /// See [`NonFungiblesTransferAdapter::transfer_asset`].
    pub fn transfer_asset<L: Ledger>(
        &self,
        ledger: &mut L,
        what: &Asset,
        from: &Location,
        to: &Location,
        context: &ExecContext,
    ) -> (r: Result<MovedAssets, Error>)
        ensures
            (match self.transferor.matcher.match_spec(*what) {
                None => r == Err::<MovedAssets, Error>(Error::AssetNotHandled) && final (
                ledger).owners() == old(ledger).owners(),
                Some((collection, item)) => (match self.transferor.resolver.resolve_spec(*to) {
                    None => r == Err::<MovedAssets, Error>(Error::AccountConversionFailed)
                        && final (ledger).owners() == old(ledger).owners(),
                    Some(destination) => (if old(ledger).owners().contains_key((collection, item))
                        && old(ledger).transferable(collection, item) {
                        r == Ok::<MovedAssets, Error>(MovedAssets { asset: *what }) && final (
                        ledger).owners() == old(ledger).owners().insert(
                            (collection, item),
                            destination,
                        )
                    } else {
                        (r matches Err(Error::TransactionFailed(_))) && final (ledger).owners()
                            == old(ledger).owners()
                    }),
                }),
            }),
            final (ledger).owners().dom() == old(ledger).owners().dom(),
            forall|c2: u64, i2: u64| #[trigger]
                final (ledger).transferable(c2, i2) == old(ledger).transferable(c2, i2),
    {
        self.transferor.transfer_asset(ledger, what, from, to, context)
    }
}

} // verus!
