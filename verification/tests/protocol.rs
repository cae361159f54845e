//! The check-in/check-out protocol, exercised end to end over the
//! in-memory ledger.

use nonfungibles_adapter::interface::Ledger;
use nonfungibles_adapter::ledger::InMemoryLedger;
use nonfungibles_adapter::mutate_adapter::NonFungiblesMutateAdapter;
use nonfungibles_adapter::providers::{BoundedMatcher, IdentityResolver, SplitPolicy};
use nonfungibles_adapter::types::{Asset, Error, ExecContext, Location};

const SENTINEL: u64 = 99;

fn adapter(
    sentinel: Option<u64>,
) -> NonFungiblesMutateAdapter<BoundedMatcher, IdentityResolver, SplitPolicy> {
    NonFungiblesMutateAdapter {
        matcher: BoundedMatcher { limit: 10 },
        resolver: IdentityResolver {},
        // Collections 0..5 are TrackLocal, 5..8 TrackNonLocal, the rest
        // Untracked.
        policy: SplitPolicy { local_below: 5, non_local_below: 8 },
        sentinel,
    }
}

fn context() -> ExecContext {
    ExecContext { message_id: 0 }
}

#[test]
fn track_local_full_cycle() {
    // Collection 1, item 42, TrackLocal, sentinel set, item unowned.
    let mut ledger = InMemoryLedger::new();
    let adapter = adapter(Some(SENTINEL));
    let what = Asset { id: 1, instance: 42 };
    let dest = Location { id: 7 };
    let origin = Location { id: 3 };

    // Unowned, so the outbound accrual validates.
    assert_eq!(adapter.can_check_out(&ledger, &dest, &what, &context()), Ok(()));
    adapter.check_out(&mut ledger, &dest, &what, &context());
    assert_eq!(ledger.owner(1, 42), Some(SENTINEL));

    // The sentinel owns it and it is transferable, so check-in validates.
    assert_eq!(adapter.can_check_in(&ledger, &origin, &what, &context()), Ok(()));
    adapter.check_in(&mut ledger, &origin, &what, &context());
    assert_eq!(ledger.owner(1, 42), None);

    // A second check-in attempt before any check-out must fail: the
    // sentinel no longer owns the item.
    assert_eq!(
        adapter.can_check_in(&ledger, &origin, &what, &context()),
        Err(Error::NotWithdrawable)
    );
}

#[test]
fn track_non_local_full_cycle() {
    // Collection 6 is TrackNonLocal: check-in accrues, check-out reduces.
    let mut ledger = InMemoryLedger::new();
    let adapter = adapter(Some(SENTINEL));
    let what = Asset { id: 6, instance: 5 };
    let dest = Location { id: 7 };
    let origin = Location { id: 3 };

    assert_eq!(adapter.can_check_in(&ledger, &origin, &what, &context()), Ok(()));
    adapter.check_in(&mut ledger, &origin, &what, &context());
    assert_eq!(ledger.owner(6, 5), Some(SENTINEL));

    assert_eq!(adapter.can_check_out(&ledger, &dest, &what, &context()), Ok(()));
    adapter.check_out(&mut ledger, &dest, &what, &context());
    assert_eq!(ledger.owner(6, 5), None);

    // With nothing recorded as received, releasing outward must fail.
    assert_eq!(
        adapter.can_check_out(&ledger, &dest, &what, &context()),
        Err(Error::NotWithdrawable)
    );
}

#[test]
fn check_out_of_owned_item_is_not_depositable() {
    // An accrual on an item that already has an owner would overwrite
    // ownership and is rejected.
    let mut ledger = InMemoryLedger::new();
    let adapter = adapter(Some(SENTINEL));
    let what = Asset { id: 2, instance: 8 };

    ledger.mint_into(2, 8, 55).unwrap();
    assert_eq!(
        adapter.can_check_out(&ledger, &Location { id: 7 }, &what, &context()),
        Err(Error::NotDepositable)
    );
}

#[test]
fn locked_item_is_not_withdrawable() {
    // The sentinel owns the item, but it is locked against transfer, so a
    // reduction does not validate.
    let mut ledger = InMemoryLedger::new();
    let adapter = adapter(Some(SENTINEL));
    let what = Asset { id: 1, instance: 3 };

    ledger.mint_into(1, 3, SENTINEL).unwrap();
    ledger.lock(1, 3);
    assert_eq!(
        adapter.can_check_in(&ledger, &Location { id: 4 }, &what, &context()),
        Err(Error::NotWithdrawable)
    );
}

#[test]
fn untracked_collection_is_a_noop() {
    // Collection 9 is Untracked: validators succeed and commits leave the
    // ledger untouched.
    let mut ledger = InMemoryLedger::new();
    let adapter = adapter(Some(SENTINEL));
    let what = Asset { id: 9, instance: 1 };
    let place = Location { id: 2 };

    ledger.mint_into(9, 1, 55).unwrap();
    assert_eq!(adapter.can_check_in(&ledger, &place, &what, &context()), Ok(()));
    assert_eq!(adapter.can_check_out(&ledger, &place, &what, &context()), Ok(()));
    adapter.check_in(&mut ledger, &place, &what, &context());
    assert_eq!(ledger.owner(9, 1), Some(55));
    adapter.check_out(&mut ledger, &place, &what, &context());
    assert_eq!(ledger.owner(9, 1), Some(55));
}

#[test]
fn no_sentinel_disables_tracking() {
    // Without a sentinel, tracking is opt-out for every mode: validators
    // succeed and commits do nothing, even on a TrackLocal collection with
    // an owned item.
    let mut ledger = InMemoryLedger::new();
    let adapter = adapter(None);
    let what = Asset { id: 1, instance: 42 };
    let place = Location { id: 2 };

    ledger.mint_into(1, 42, 55).unwrap();
    assert_eq!(adapter.can_check_in(&ledger, &place, &what, &context()), Ok(()));
    assert_eq!(adapter.can_check_out(&ledger, &place, &what, &context()), Ok(()));
    adapter.check_out(&mut ledger, &place, &what, &context());
    assert_eq!(ledger.owner(1, 42), Some(55));
    adapter.check_in(&mut ledger, &place, &what, &context());
    assert_eq!(ledger.owner(1, 42), Some(55));
}

#[test]
fn unhandled_asset_is_rejected_by_validators() {
    // The matcher only handles classes below 10.
    let ledger = InMemoryLedger::new();
    let adapter = adapter(Some(SENTINEL));
    let what = Asset { id: 10, instance: 1 };
    let place = Location { id: 2 };

    assert_eq!(
        adapter.can_check_in(&ledger, &place, &what, &context()),
        Err(Error::AssetNotHandled)
    );
    assert_eq!(
        adapter.can_check_out(&ledger, &place, &what, &context()),
        Err(Error::AssetNotHandled)
    );
}

#[test]
fn repeated_cycles_conserve_ownership() {
    // Several complete check-out/check-in cycles leave the item exactly as
    // it began: unowned, never duplicated.
    let mut ledger = InMemoryLedger::new();
    let adapter = adapter(Some(SENTINEL));
    let what = Asset { id: 3, instance: 14 };
    let dest = Location { id: 7 };
    let origin = Location { id: 6 };

    for _ in 0..4 {
        assert_eq!(adapter.can_check_out(&ledger, &dest, &what, &context()), Ok(()));
        adapter.check_out(&mut ledger, &dest, &what, &context());
        assert_eq!(ledger.owner(3, 14), Some(SENTINEL));
        assert_eq!(adapter.can_check_in(&ledger, &origin, &what, &context()), Ok(()));
        adapter.check_in(&mut ledger, &origin, &what, &context());
        assert_eq!(ledger.owner(3, 14), None);
    }
}
