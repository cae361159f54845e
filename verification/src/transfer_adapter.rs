//! The transfer adapter: unconditional ownership transfer between two
//! resolved accounts. No mint or burn takes place, so the set of existing
//! items is left untouched.

use vstd::prelude::*;

use crate::interface::{AccountResolver, Ledger, Matcher};
use crate::types::{Asset, Error, ExecContext, Location, MovedAssets};

verus! {

/// Moves ownership of a matched asset to the account its destination
/// location resolves to. Only works for transfers.
pub struct NonFungiblesTransferAdapter<M, R> {
    /// Decides which descriptors this adapter handles.
    pub matcher: M,
    /// Maps the destination location to a local account.
    pub resolver: R,
}

impl<M: Matcher, R: AccountResolver> NonFungiblesTransferAdapter<M, R> {
    /// Transfer `what` from `from` to the account `to` resolves to,
    /// returning the descriptor as the moved assets. `from` is accepted
    /// for interface symmetry and diagnostics; the ledger's transfer call
    /// is the sole authority on source ownership.
    ///
    /// Whatever the outcome, which items exist is unchanged: a transfer
    /// only rebinds an existing item's owner.
    pub fn transfer_asset<L: Ledger>(
        &self,
        ledger: &mut L,
        what: &Asset,
        from: &Location,
        to: &Location,
        context: &ExecContext,
    ) -> (r: Result<MovedAssets, Error>)
        ensures
            (match self.matcher.match_spec(*what) {
                None => r == Err::<MovedAssets, Error>(Error::AssetNotHandled) && final (
                ledger).owners() == old(ledger).owners(),
                Some((collection, item)) => (match self.resolver.resolve_spec(*to) {
                    None => r == Err::<MovedAssets, Error>(Error::AccountConversionFailed)
                        && final (ledger).owners() == old(ledger).owners(),
                    Some(destination) => (if old(ledger).owners().contains_key((collection, item))
                        && old(ledger).transferable(collection, item) {
                        r == Ok::<MovedAssets, Error>(MovedAssets { asset: *what }) && final (
                        ledger).owners() == old(ledger).owners().insert(
                            (collection, item),
                            destination,
                        )
                    } else {
                        (r matches Err(Error::TransactionFailed(_))) && final (ledger).owners()
                            == old(ledger).owners()
                    }),
                }),
            }),
            final (ledger).owners().dom() == old(ledger).owners().dom(),
            forall|c2: u64, i2: u64| #[trigger]
                final (ledger).transferable(c2, i2) == old(ledger).transferable(c2, i2),
    {
        let (collection, item) = match self.matcher.matches(what) {
            Ok(pair) => pair,
            Err(e) => {
                return Err(e);
            },
        };
        let destination = match self.resolver.resolve(to) {
            Some(account) => account,
            None => {
                return Err(Error::AccountConversionFailed);
            },
        };
        match ledger.transfer(collection, item, destination) {
            Ok(()) => {
                proof {
                    assert(ledger.owners().dom() =~= old(ledger).owners().dom());
                }
                Ok(MovedAssets { asset: *what })
            },
            Err(e) => Err(Error::TransactionFailed(e)),
        }
    }
}

} // verus!
