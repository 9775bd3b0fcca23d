//! Inserting order lines, many in one statement.

use vstd::prelude::*;
use crate::db::store::{has_item, has_menu, has_table, Store, StoreFailure, StoredItem};
use crate::models::restaurant_models::PartialItem;

verus! {

/// The order line that the store keeps for `row` when it is created at `now`.
/// A new order line has nothing delivered, whatever `row` says: the insert
/// binds zero for that column.
pub open spec fn stamped(row: PartialItem, now: i64) -> StoredItem {
    StoredItem {
        id: row.id,
        tables_id: row.tables_id,
        menu_id: row.menu_id,
        quantity: row.quantity,
        delivered_quantity: 0,
        created_at: now,
    }
}

/// The order lines that the store keeps for `rows` when they are created at
/// `now`, in the order given.
pub open spec fn stamped_rows(rows: Seq<PartialItem>, now: i64) -> Seq<StoredItem> {
    Seq::new(rows.len(), |k: int| stamped(rows[k], now))
}

/// True when a row before position `k` of `rows` has the identifier `id`.
pub open spec fn named_before(rows: Seq<PartialItem>, k: int, id: u128) -> bool {
    exists|j: int| 0 <= j < k && (#[trigger] rows[j]).id == id
}

impl Store {
    /// Why the row at position `k` of `rows` cannot be inserted, if it
    /// cannot: its identifier is taken, by a stored row or by an earlier one of
    /// `rows`, or it names a table or a menu entry that does not exist.
    pub open spec fn row_failure(&self, rows: Seq<PartialItem>, k: int) -> Option<StoreFailure> {
        let row = rows[k];
        if has_item(self.items@, row.id) || named_before(rows, k, row.id) {
            Some(StoreFailure::DuplicateId)
        } else if !has_table(self.tables@, row.tables_id) {
            Some(StoreFailure::UnknownTable)
        } else if !has_menu(self.menu@, row.menu_id) {
            Some(StoreFailure::UnknownMenu)
        } else {
            None
        }
    }

    /// Why the first `n` of `rows` cannot be inserted, if they cannot: the
    /// failure of the first row that has one.
    pub open spec fn insert_failure(&self, rows: Seq<PartialItem>, n: nat) -> Option<StoreFailure>
        decreases n,
    {
        if n == 0 {
            None
        } else {
            match self.insert_failure(rows, (n - 1) as nat) {
                Some(failure) => Some(failure),
                None => self.row_failure(rows, n - 1),
            }
        }
    }

    /// Where no failure is found among the first `n` rows, none of them has
    /// one.
    pub proof fn lemma_no_failure(&self, rows: Seq<PartialItem>, n: nat)
        requires
            self.insert_failure(rows, n) is None,
        ensures
            forall|k: int| 0 <= k < n ==> self.row_failure(rows, k) is None,
        decreases n,
    {
        if n > 0 {
            self.lemma_no_failure(rows, (n - 1) as nat);
        }
    }

    /// A failure found among the first `n` rows is the failure of any longer
    /// prefix.
    pub proof fn lemma_failure_stays(&self, rows: Seq<PartialItem>, n: nat, m: nat)
        requires
            n <= m,
            self.insert_failure(rows, n) is Some,
        ensures
            self.insert_failure(rows, m) == self.insert_failure(rows, n),
        decreases m,
    {
        if m > n {
            self.lemma_failure_stays(rows, n, (m - 1) as nat);
        }
    }

    /// A failed insert never fails for a quantity out of range.
    pub proof fn lemma_failure_kind(&self, rows: Seq<PartialItem>, n: nat)
        ensures
            self.insert_failure(rows, n) != Some(StoreFailure::OutOfRange),
        decreases n,
    {
        if n > 0 {
            self.lemma_failure_kind(rows, (n - 1) as nat);
        }
    }

    /// Inserts `rows` as one statement, each stamped with the present time.
    /// Either all of them are added, behind the rows already stored and in the
    /// order given, or the statement fails and the store is as it was.
    pub fn insert_items(&mut self, rows: &Vec<PartialItem>) -> (result: Result<u64, StoreFailure>)
        requires
            old(self).wf(),
        ensures
            final(self).wf(),
            final(self).tables == old(self).tables,
            final(self).menu == old(self).menu,
            final(self).clock == old(self).clock,
            match old(self).insert_failure(rows@, rows@.len()) {
                Some(failure) => result == Err::<u64, StoreFailure>(failure) && final(self).items
                    == old(self).items,
                None => result == Ok::<u64, StoreFailure>(rows@.len() as u64)
                    && final(self).items@ == old(self).items@ + stamped_rows(
                    rows@,
                    old(self).clock,
                ),
            },
    {
        let mut k: usize = 0;
        while k < rows.len()
            invariant
                k <= rows@.len(),
                *self == *old(self),
                self.wf(),
                self.insert_failure(rows@, k as nat) is None,
            decreases rows@.len() - k,
        {
            let row = rows[k];
            let mut seen = false;
            let mut j: usize = 0;
            while j < k
                invariant
                    j <= k,
                    k < rows@.len(),
                    row == rows@[k as int],
                    seen == named_before(rows@, j as int, row.id),
                decreases k - j,
            {
                if rows[j].id == row.id {
                    seen = true;
                }
                j += 1;
            }
            let failure = if seen || self.contains_item(row.id) {
                Some(StoreFailure::DuplicateId)
            } else if !self.contains_table(row.tables_id) {
                Some(StoreFailure::UnknownTable)
            } else if !self.contains_menu(row.menu_id) {
                Some(StoreFailure::UnknownMenu)
            } else {
                None
            };
            assert(failure == self.row_failure(rows@, k as int));
            match failure {
                Some(failure) => {
                    proof {
                        self.lemma_failure_stays(rows@, (k + 1) as nat, rows@.len());
                    }
                    return Err(failure);
                },
                None => {},
            }
            k += 1;
        }
        proof {
            self.lemma_no_failure(rows@, rows@.len());
        }
        let ghost before = self.items@;
        let now = self.clock;
        let mut k: usize = 0;
        while k < rows.len()
            invariant
                k <= rows@.len(),
                self.tables == old(self).tables,
                self.menu == old(self).menu,
                self.clock == old(self).clock,
                now == self.clock,
                before == old(self).items@,
                self.items@ == before + stamped_rows(rows@.take(k as int), now),
            decreases rows@.len() - k,
        {
            let row = rows[k];
            self.items.push(
                StoredItem {
                    id: row.id,
                    tables_id: row.tables_id,
                    menu_id: row.menu_id,
                    quantity: row.quantity,
                    delivered_quantity: 0,
                    created_at: now,
                },
            );
            assert(self.items@ =~= before + stamped_rows(rows@.take(k + 1), now));
            k += 1;
        }
        proof {
            assert(rows@.take(rows@.len() as int) =~= rows@);
            let added = stamped_rows(rows@, now);
            assert forall|i: int| 0 <= i < self.items@.len() implies {
                &&& has_table(self.tables@, (#[trigger] self.items@[i]).tables_id)
                &&& has_menu(self.menu@, self.items@[i].menu_id)
                &&& self.items@[i].created_at <= self.clock
            } by {
                if i >= before.len() {
                    assert(old(self).row_failure(rows@, i - before.len()) is None);
                } else {
                    assert(self.items@[i] == before[i]);
                }
            }
            assert forall|i: int, j: int| 0 <= i < j < self.items@.len() implies {
                &&& (#[trigger] self.items@[i]).id != (#[trigger] self.items@[j]).id
                &&& self.items@[i].created_at <= self.items@[j].created_at
            } by {
                if j >= before.len() {
                    let b = j - before.len();
                    assert(old(self).row_failure(rows@, b) is None);
                    if i >= before.len() {
                        let a = i - before.len();
                        assert(rows@[a].id == self.items@[i].id);
                    } else {
                        assert(before[i] == self.items@[i]);
                    }
                } else {
                    assert(before[i] == self.items@[i]);
                    assert(before[j] == self.items@[j]);
                }
            }
        }
        Ok(rows.len() as u64)
    }
}

} // verus!
