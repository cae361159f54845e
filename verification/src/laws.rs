//! The protocol's guarantees, stated and proved over the model of
//! [`crate::protocol`].
//!
//! Each law is a public proof function; its requires hold only what the law
//! assumes, its ensures state the law over the same spec functions the
//! adapter operations' contracts use, so every law connects directly to the
//! executable code. In the ownership model an item has at most one owner by
//! construction — the map binds each `(collection, item)` to a single
//! account — so a tracked item can never be both in the sentinel's escrow
//! and externally owned at once.

use vstd::prelude::*;

use crate::interface::{Ledger, Matcher, MintPolicy};
use crate::protocol::{
    can_check_in_spec, can_check_out_spec, check_in_safe, check_in_owners_after, check_out_safe,
    check_out_owners_after,
};
use crate::types::{Asset, Error};

verus! {

/// Round trip, home collections: for a `TrackLocal` item that starts
/// unowned, a committed check-out followed by a committed check-in restores
/// the ownership map exactly — the sentinel's escrow holding over the item
/// returns to its previous value.
pub proof fn check_out_then_check_in_restores_local<M: Matcher, P: MintPolicy>(
    matcher: M,
    policy: P,
    sentinel: u64,
    owners: Map<(u64, u64), u64>,
    what: Asset,
    collection: u64,
    item: u64,
)
    requires
        matcher.match_spec(what) == Some((collection, item)),
        policy.classify_spec(collection) is TrackLocal,
        !owners.contains_key((collection, item)),
    ensures
        check_in_owners_after(
            matcher,
            policy,
            Some(sentinel),
            check_out_owners_after(matcher, policy, Some(sentinel), owners, what),
            what,
        ) == owners,
{
    let mid = check_out_owners_after(matcher, policy, Some(sentinel), owners, what);
    assert(mid == owners.insert((collection, item), sentinel));
    assert(mid.remove((collection, item)) =~= owners);
}

/// Round trip, foreign collections: for a `TrackNonLocal` item the sentinel
/// owns, a committed check-out (reduction) followed by a committed check-in
/// (accrual) restores the ownership map exactly.
pub proof fn check_out_then_check_in_restores_non_local<M: Matcher, P: MintPolicy>(
    matcher: M,
    policy: P,
    sentinel: u64,
    owners: Map<(u64, u64), u64>,
    what: Asset,
    collection: u64,
    item: u64,
)
    requires
        matcher.match_spec(what) == Some((collection, item)),
        policy.classify_spec(collection) is TrackNonLocal,
        owners.contains_key((collection, item)),
        owners[(collection, item)] == sentinel,
    ensures
        check_in_owners_after(
            matcher,
            policy,
            Some(sentinel),
            check_out_owners_after(matcher, policy, Some(sentinel), owners, what),
            what,
        ) == owners,
{
    let mid = check_out_owners_after(matcher, policy, Some(sentinel), owners, what);
    assert(mid == owners.remove((collection, item)));
    assert(mid.insert((collection, item), sentinel) =~= owners);
}

/// Two-phase guarantee, inbound: a caller that invokes `check_in` only
/// right after a success of `can_check_in` on the same state always meets
/// `check_in`'s precondition.
pub proof fn can_check_in_ok_implies_check_in_safe<L: Ledger, M: Matcher, P: MintPolicy>(
    matcher: M,
    policy: P,
    sentinel: Option<u64>,
    ledger: L,
    what: Asset,
)
    requires
        can_check_in_spec(matcher, policy, sentinel, ledger, what) is Ok,
    ensures
        check_in_safe(matcher, policy, sentinel, ledger, what),
{
}

/// Two-phase guarantee, outbound: a caller that invokes `check_out` only
/// right after a success of `can_check_out` on the same state always meets
/// `check_out`'s precondition.
pub proof fn can_check_out_ok_implies_check_out_safe<L: Ledger, M: Matcher, P: MintPolicy>(
    matcher: M,
    policy: P,
    sentinel: Option<u64>,
    ledger: L,
    what: Asset,
)
    requires
        can_check_out_spec(matcher, policy, sentinel, ledger, what) is Ok,
    ensures
        check_out_safe(matcher, policy, sentinel, ledger, what),
{
}

/// A committed check-out on a `TrackLocal` collection escrows the item
/// exclusively: afterwards the sentinel is the item's one owner — the item
/// cannot also be externally owned — and no other item's binding changes.
pub proof fn check_out_escrows_exclusively<M: Matcher, P: MintPolicy>(
    matcher: M,
    policy: P,
    sentinel: u64,
    owners: Map<(u64, u64), u64>,
    what: Asset,
    collection: u64,
    item: u64,
)
    requires
        matcher.match_spec(what) == Some((collection, item)),
        policy.classify_spec(collection) is TrackLocal,
        !owners.contains_key((collection, item)),
    ensures
        check_out_owners_after(matcher, policy, Some(sentinel), owners, what).contains_key(
            (collection, item),
        ),
        check_out_owners_after(matcher, policy, Some(sentinel), owners, what)[(collection, item)]
            == sentinel,
        forall|key: (u64, u64)|
            key != (collection, item) ==> #[trigger] check_out_owners_after(
                matcher,
                policy,
                Some(sentinel),
                owners,
                what,
            ).contains_key(key) == owners.contains_key(key),
        forall|key: (u64, u64)|
            key != (collection, item) && owners.contains_key(key) ==> #[trigger] check_out_owners_after(
                matcher,
                policy,
                Some(sentinel),
                owners,
                what,
            )[key] == owners[key],
{
}

/// The ownership map after `count` complete check-out/check-in cycles.
pub open spec fn teleport_cycles<M: Matcher, P: MintPolicy>(
    matcher: M,
    policy: P,
    sentinel: Option<u64>,
    owners: Map<(u64, u64), u64>,
    what: Asset,
    count: nat,
) -> Map<(u64, u64), u64>
    decreases count,
{
    if count == 0 {
        owners
    } else {
        teleport_cycles(
            matcher,
            policy,
            sentinel,
            check_in_owners_after(
                matcher,
                policy,
                sentinel,
                check_out_owners_after(matcher, policy, sentinel, owners, what),
                what,
            ),
            what,
            (count - 1) as nat,
        )
    }
}

/// Conservation: any number of complete check-out/check-in cycles on a
/// `TrackLocal` item that starts unowned leaves the ownership map exactly
/// as it began — no net creation or destruction of the item, and never a
/// state in which the sentinel's escrow entry survives alongside an
/// external owner.
pub proof fn conservation_over_cycles<M: Matcher, P: MintPolicy>(
    matcher: M,
    policy: P,
    sentinel: u64,
    owners: Map<(u64, u64), u64>,
    what: Asset,
    collection: u64,
    item: u64,
    count: nat,
)
    requires
        matcher.match_spec(what) == Some((collection, item)),
        policy.classify_spec(collection) is TrackLocal,
        !owners.contains_key((collection, item)),
    ensures
        teleport_cycles(matcher, policy, Some(sentinel), owners, what, count) == owners,
    decreases count,
{
    if count > 0 {
        check_out_then_check_in_restores_local(
            matcher,
            policy,
            sentinel,
            owners,
            what,
            collection,
            item,
        );
        conservation_over_cycles(
            matcher,
            policy,
            sentinel,
            owners,
            what,
            collection,
            item,
            (count - 1) as nat,
        );
    }
}

/// Untracked collections are a no-op for the whole protocol: both
/// validators succeed and neither commit operation changes the ledger's
/// ownership map.
pub proof fn untracked_is_noop<L: Ledger, M: Matcher, P: MintPolicy>(
    matcher: M,
    policy: P,
    sentinel: Option<u64>,
    ledger: L,
    what: Asset,
    collection: u64,
    item: u64,
)
    requires
        matcher.match_spec(what) == Some((collection, item)),
        policy.classify_spec(collection) is Untracked,
    ensures
        can_check_in_spec(matcher, policy, sentinel, ledger, what) == Ok::<(), Error>(()),
        can_check_out_spec(matcher, policy, sentinel, ledger, what) == Ok::<(), Error>(()),
        check_in_owners_after(matcher, policy, sentinel, ledger.owners(), what) == ledger.owners(),
        check_out_owners_after(matcher, policy, sentinel, ledger.owners(), what) == ledger.owners(),
{
}

/// With the sentinel unset, tracking is disabled outright: both validators
/// succeed and neither commit operation changes the ledger's ownership
/// map, whatever the collection's mode.
pub proof fn no_sentinel_disables_tracking<L: Ledger, M: Matcher, P: MintPolicy>(
    matcher: M,
    policy: P,
    ledger: L,
    what: Asset,
    collection: u64,
    item: u64,
)
    requires
        matcher.match_spec(what) == Some((collection, item)),
    ensures
        can_check_in_spec(matcher, policy, None, ledger, what) == Ok::<(), Error>(()),
        can_check_out_spec(matcher, policy, None, ledger, what) == Ok::<(), Error>(()),
        check_in_owners_after(matcher, policy, None, ledger.owners(), what) == ledger.owners(),
        check_out_owners_after(matcher, policy, None, ledger.owners(), what) == ledger.owners(),
{
}

} // verus!
