//! A verified in-memory [`Ledger`]: a journal of ownership records.
//!
//! The ledger stores a sequence of records, newest first; the newest record
//! for an item is authoritative, and a record carrying no owner marks the
//! item as burned. Every mutation is a single prepend, so each operation's
//! effect on the ownership map follows directly from the journal's shape.

use vstd::prelude::*;

use crate::interface::Ledger;
use crate::types::LedgerError;

verus! {

/// The owner the journal assigns to `(collection, item)`: the value of the
/// newest record for the item, or `None` when no record mentions it.
pub closed spec fn lookup(
    records: Seq<(u64, u64, Option<u64>)>,
    collection: u64,
    item: u64,
) -> Option<u64>
    decreases records.len(),
{
    if records.len() == 0 {
        None
    } else if records[0].0 == collection && records[0].1 == item {
        records[0].2
    } else {
        lookup(records.drop_first(), collection, item)
    }
}

/// The ownership map a journal denotes.
pub closed spec fn owners_of(records: Seq<(u64, u64, Option<u64>)>) -> Map<(u64, u64), u64> {
    Map::new(
        |key: (u64, u64)| lookup(records, key.0, key.1) is Some,
        |key: (u64, u64)| lookup(records, key.0, key.1)->0,
    )
}

/// How prepending a record changes what the journal says: the new record
/// decides its own item, every other item is unaffected.
proof fn lemma_lookup_after_prepend(
    older: Seq<(u64, u64, Option<u64>)>,
    newer: Seq<(u64, u64, Option<u64>)>,
    collection: u64,
    item: u64,
    value: Option<u64>,
)
    requires
        newer.len() == older.len() + 1,
        newer[0] == (collection, item, value),
        newer.drop_first() == older,
    ensures
        lookup(newer, collection, item) == value,
        forall|c2: u64, i2: u64|
            !(c2 == collection && i2 == item) ==> #[trigger] lookup(newer, c2, i2) == lookup(
                older,
                c2,
                i2,
            ),
{
}

/// An in-memory ledger backed by an ownership journal, plus the set of
/// items currently locked against transfer.
pub struct InMemoryLedger {
    records: Vec<(u64, u64, Option<u64>)>,
    locked: Vec<(u64, u64)>,
}

impl InMemoryLedger {
    /// An empty ledger: no item owned, every item transferable.
    pub fn new() -> (r: InMemoryLedger)
        ensures
            r.owners() == Map::<(u64, u64), u64>::empty(),
            forall|collection: u64, item: u64| #[trigger] r.transferable(collection, item),
    {
        let ledger = InMemoryLedger { records: Vec::new(), locked: Vec::new() };
        proof {
            assert(ledger.owners() =~= Map::<(u64, u64), u64>::empty());
        }
        ledger
    }

    /// Lock `(collection, item)` against transfer. Ownership is untouched;
    /// no other item's transferability changes.
    pub fn lock(&mut self, collection: u64, item: u64)
        ensures
            final (self).owners() == old(self).owners(),
            !final (self).transferable(collection, item),
            forall|c2: u64, i2: u64|
                !(c2 == collection && i2 == item) ==> #[trigger] final (self).transferable(c2, i2)
                    == old(self).transferable(c2, i2),
    {
        self.locked.push((collection, item));
        proof {
            let before = old(self).locked@;
            let after = self.locked@;
            assert(after[before.len() as int] == (collection, item));
            assert(after.contains((collection, item)));
            assert forall|c2: u64, i2: u64| !(c2 == collection && i2 == item) implies #[trigger] self.transferable(c2, i2) == old(self).transferable(c2, i2) by {
                if after.contains((c2, i2)) {
                    let j = choose|j: int| 0 <= j < after.len() && after[j] == (c2, i2);
                    assert(before[j] == (c2, i2));
                    assert(before.contains((c2, i2)));
                }
                if before.contains((c2, i2)) {
                    let j = choose|j: int| 0 <= j < before.len() && before[j] == (c2, i2);
                    assert(after[j] == (c2, i2));
                    assert(after.contains((c2, i2)));
                }
            }
        }
    }
}

impl Ledger for InMemoryLedger {
    closed spec fn owners(&self) -> Map<(u64, u64), u64> {
        owners_of(self.records@)
    }

    closed spec fn transferable(&self, collection: u64, item: u64) -> bool {
        !self.locked@.contains((collection, item))
    }

    fn owner(&self, collection: u64, item: u64) -> (r: Option<u64>) {
        let ghost all = self.records@;
        let n = self.records.len();
        let mut idx: usize = 0;
        proof {
            assert(all.skip(0) =~= all);
        }
        while idx < n
            invariant
                idx <= n,
                n == all.len(),
                all == self.records@,
                lookup(all, collection, item) == lookup(all.skip(idx as int), collection, item),
            decreases n - idx,
        {
            let record = self.records[idx];
            if record.0 == collection && record.1 == item {
                proof {
                    assert(all.skip(idx as int)[0] == record);
                }
                return record.2;
            }
            proof {
                assert(all.skip(idx as int).drop_first() =~= all.skip(idx as int + 1));
            }
            idx = idx + 1;
        }
        proof {
            assert(all.skip(n as int) =~= Seq::<(u64, u64, Option<u64>)>::empty());
        }
        None
    }

    fn can_transfer(&self, collection: u64, item: u64) -> (r: bool) {
        let n = self.locked.len();
        let mut idx: usize = 0;
        while idx < n
            invariant
                idx <= n,
                n == self.locked@.len(),
                forall|j: int| 0 <= j < idx ==> self.locked@[j] != (collection, item),
            decreases n - idx,
        {
            let entry = self.locked[idx];
            if entry.0 == collection && entry.1 == item {
                return false;
            }
            idx = idx + 1;
        }
        proof {
            assert(!self.locked@.contains((collection, item)));
        }
        true
    }

    fn mint_into(&mut self, collection: u64, item: u64, account: u64) -> (r: Result<
        (),
        LedgerError,
    >) {
        match self.owner(collection, item) {
            Some(_) => Err(LedgerError::AlreadyExists),
            None => {
                self.records.insert(0, (collection, item, Some(account)));
                proof {
                    let older = old(self).records@;
                    let newer = self.records@;
                    assert(newer.drop_first() =~= older);
                    lemma_lookup_after_prepend(older, newer, collection, item, Some(account));
                    assert(self.owners() =~= old(self).owners().insert(
                        (collection, item),
                        account,
                    ));
                }
                Ok(())
            },
        }
    }

    fn burn(&mut self, collection: u64, item: u64, expected_owner: Option<u64>) -> (r: Result<
        (),
        LedgerError,
    >) {
        let owner = match self.owner(collection, item) {
            Some(owner) => owner,
            None => {
                return Err(LedgerError::NotFound);
            },
        };
        if let Some(account) = expected_owner {
            if owner != account {
                return Err(LedgerError::WrongOwner);
            }
        }
        self.records.insert(0, (collection, item, None));
        proof {
            let older = old(self).records@;
            let newer = self.records@;
            assert(newer.drop_first() =~= older);
            lemma_lookup_after_prepend(older, newer, collection, item, None::<u64>);
            assert(self.owners() =~= old(self).owners().remove((collection, item)));
        }
        Ok(())
    }

    fn transfer(&mut self, collection: u64, item: u64, destination: u64) -> (r: Result<
        (),
        LedgerError,
    >) {
        if self.owner(collection, item).is_none() {
            return Err(LedgerError::NotFound);
        }
        if !self.can_transfer(collection, item) {
            return Err(LedgerError::NotTransferable);
        }
        self.records.insert(0, (collection, item, Some(destination)));
        proof {
            let older = old(self).records@;
            let newer = self.records@;
            assert(newer.drop_first() =~= older);
            lemma_lookup_after_prepend(older, newer, collection, item, Some(destination));
            assert(self.owners() =~= old(self).owners().insert((collection, item), destination));
        }
        Ok(())
    }
}

} // verus!
