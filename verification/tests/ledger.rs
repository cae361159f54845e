//! The in-memory ledger and the provider implementations on their own.

use nonfungibles_adapter::interface::{AccountResolver, Ledger, Matcher, MintPolicy};
use nonfungibles_adapter::ledger::InMemoryLedger;
use nonfungibles_adapter::providers::{BoundedMatcher, IdentityResolver, SplitPolicy};
use nonfungibles_adapter::types::{Asset, Error, LedgerError, Location, TrackingMode};

#[test]
fn fresh_ledger_is_empty_and_unlocked() {
    let ledger = InMemoryLedger::new();
    assert_eq!(ledger.owner(1, 1), None);
    assert!(ledger.can_transfer(1, 1));
}

#[test]
fn mint_succeeds_once_per_item() {
    let mut ledger = InMemoryLedger::new();
    assert_eq!(ledger.mint_into(1, 1, 5), Ok(()));
    assert_eq!(ledger.owner(1, 1), Some(5));
    assert_eq!(ledger.mint_into(1, 1, 6), Err(LedgerError::AlreadyExists));
    assert_eq!(ledger.owner(1, 1), Some(5));
    // Distinct items of the same collection are independent.
    assert_eq!(ledger.mint_into(1, 2, 6), Ok(()));
    assert_eq!(ledger.owner(1, 2), Some(6));
}

#[test]
fn burn_respects_the_expected_owner() {
    let mut ledger = InMemoryLedger::new();
    ledger.mint_into(1, 1, 5).unwrap();
    assert_eq!(ledger.burn(1, 1, Some(6)), Err(LedgerError::WrongOwner));
    assert_eq!(ledger.owner(1, 1), Some(5));
    assert_eq!(ledger.burn(1, 1, Some(5)), Ok(()));
    assert_eq!(ledger.owner(1, 1), None);
    assert_eq!(ledger.burn(1, 1, None), Err(LedgerError::NotFound));
}

#[test]
fn burn_without_expected_owner_burns_any_owner() {
    let mut ledger = InMemoryLedger::new();
    ledger.mint_into(1, 1, 5).unwrap();
    assert_eq!(ledger.burn(1, 1, None), Ok(()));
    assert_eq!(ledger.owner(1, 1), None);
    // The item can be minted afresh after a burn.
    assert_eq!(ledger.mint_into(1, 1, 7), Ok(()));
    assert_eq!(ledger.owner(1, 1), Some(7));
}

#[test]
fn transfer_requires_an_owned_transferable_item() {
    let mut ledger = InMemoryLedger::new();
    assert_eq!(ledger.transfer(1, 1, 9), Err(LedgerError::NotFound));
    ledger.mint_into(1, 1, 5).unwrap();
    assert_eq!(ledger.transfer(1, 1, 9), Ok(()));
    assert_eq!(ledger.owner(1, 1), Some(9));
    ledger.lock(1, 1);
    assert!(!ledger.can_transfer(1, 1));
    assert_eq!(ledger.transfer(1, 1, 5), Err(LedgerError::NotTransferable));
    assert_eq!(ledger.owner(1, 1), Some(9));
    // Locking one item leaves the others transferable.
    assert!(ledger.can_transfer(1, 2));
}

#[test]
fn bounded_matcher_reads_class_and_instance() {
    let matcher = BoundedMatcher { limit: 10 };
    assert_eq!(matcher.matches(&Asset { id: 9, instance: 4 }), Ok((9, 4)));
    assert_eq!(
        matcher.matches(&Asset { id: 10, instance: 4 }),
        Err(Error::AssetNotHandled)
    );
}

#[test]
fn identity_resolver_rejects_the_zero_location() {
    let resolver = IdentityResolver {};
    assert_eq!(resolver.resolve(&Location { id: 0 }), None);
    assert_eq!(resolver.resolve(&Location { id: 17 }), Some(17));
}

#[test]
fn split_policy_classifies_by_bounds() {
    let policy = SplitPolicy { local_below: 5, non_local_below: 8 };
    assert_eq!(policy.classify(0), TrackingMode::TrackLocal);
    assert_eq!(policy.classify(4), TrackingMode::TrackLocal);
    assert_eq!(policy.classify(5), TrackingMode::TrackNonLocal);
    assert_eq!(policy.classify(7), TrackingMode::TrackNonLocal);
    assert_eq!(policy.classify(8), TrackingMode::Untracked);
}
