//! Changing order lines, many in one statement.

use vstd::prelude::*;
use crate::db::connection::UpdateItemRequest;
use crate::db::store::{Store, StoreFailure, StoredItem};

verus! {

/// The first of the first `n` changes of `batch` that names the identifier
/// `id`, if one does.
pub open spec fn change_for(batch: Seq<UpdateItemRequest>, n: nat, id: u128) -> Option<
    UpdateItemRequest,
>
    decreases n,
{
    if n == 0 {
        None
    } else {
        match change_for(batch, (n - 1) as nat, id) {
            Some(change) => Some(change),
            None => if batch[n - 1].id == id {
                Some(batch[n - 1])
            } else {
                None
            },
        }
    }
}

/// The quantity of `row` once `change` is applied: the one that the change
/// gives, which replaces the stored one, or the stored one where it gives none.
pub open spec fn new_quantity(row: StoredItem, change: UpdateItemRequest) -> i32 {
    match change.quantity {
        Some(quantity) => quantity,
        None => row.quantity,
    }
}

/// The delivered quantity of `row` once `change` is applied: the stored one
/// raised by the amount that the change gives, or the stored one where it gives
/// none.
pub open spec fn new_delivered(row: StoredItem, change: UpdateItemRequest) -> int {
    match change.delivered_quantity {
        Some(amount) => row.delivered_quantity + amount,
        None => row.delivered_quantity as int,
    }
}

/// True when applying `batch` would take the delivered quantity of `row` out
/// of the range of its column.
pub open spec fn row_overflows(row: StoredItem, batch: Seq<UpdateItemRequest>) -> bool {
    match change_for(batch, batch.len(), row.id) {
        Some(change) => new_delivered(row, change) < i32::MIN || new_delivered(row, change)
            > i32::MAX,
        None => false,
    }
}

/// The row that `row` becomes when `batch` is applied. A row that no change
/// names stays as it is; of several changes that name it, the first decides.
pub open spec fn row_after(row: StoredItem, batch: Seq<UpdateItemRequest>) -> StoredItem {
    match change_for(batch, batch.len(), row.id) {
        Some(change) => if row_overflows(row, batch) {
            row
        } else {
            StoredItem {
                id: row.id,
                tables_id: row.tables_id,
                menu_id: row.menu_id,
                quantity: new_quantity(row, change),
                delivered_quantity: new_delivered(row, change) as i32,
                created_at: row.created_at,
            }
        },
        None => row,
    }
}

/// The rows that `items` become when `batch` is applied.
pub open spec fn rows_after(items: Seq<StoredItem>, batch: Seq<UpdateItemRequest>) -> Seq<
    StoredItem,
> {
    Seq::new(items.len(), |k: int| row_after(items[k], batch))
}

/// True when applying `batch` would take the delivered quantity of some row
/// of `items` out of the range of its column.
pub open spec fn any_overflows(items: Seq<StoredItem>, batch: Seq<UpdateItemRequest>) -> bool {
    exists|k: int| 0 <= k < items.len() && row_overflows(#[trigger] items[k], batch)
}

/// The number of rows among the first `n` of `items` that `batch` names.
pub open spec fn affected(items: Seq<StoredItem>, batch: Seq<UpdateItemRequest>, n: nat) -> nat
    decreases n,
{
    if n == 0 {
        0
    } else {
        affected(items, batch, (n - 1) as nat) + if change_for(
            batch,
            batch.len(),
            items[n - 1].id,
        ) is Some {
            1nat
        } else {
            0nat
        }
    }
}

/// A batch touches no more rows than there are.
pub proof fn lemma_affected_bound(items: Seq<StoredItem>, batch: Seq<UpdateItemRequest>, n: nat)
    ensures
        affected(items, batch, n) <= n,
    decreases n,
{
    if n > 0 {
        lemma_affected_bound(items, batch, (n - 1) as nat);
    }
}

/// The first change of `batch` that names the identifier `id`, if one does.
pub fn find_change(batch: &Vec<UpdateItemRequest>, id: u128) -> (found: Option<UpdateItemRequest>)
    ensures
        found == change_for(batch@, batch@.len(), id),
{
    let mut found: Option<UpdateItemRequest> = None;
    let mut i: usize = 0;
    while i < batch.len()
        invariant
            i <= batch@.len(),
            found == change_for(batch@, i as nat, id),
        decreases batch@.len() - i,
    {
        if found.is_none() && batch[i].id == id {
            found = Some(batch[i]);
        }
        i += 1;
    }
    found
}

impl Store {
    /// Applies `batch` as one statement and reports how many rows it touched.
    /// A row that the batch names gets its quantity replaced and its delivered
    /// quantity raised, as far as the change says; every other row stays as it
    /// is. Where a delivered quantity would leave the range of its column, the
    /// statement fails and the store is as it was.
    pub fn update_items(&mut self, batch: &Vec<UpdateItemRequest>) -> (result: Result<
        u64,
        StoreFailure,
    >)
        requires
            old(self).wf(),
        ensures
            final(self).wf(),
            final(self).tables == old(self).tables,
            final(self).menu == old(self).menu,
            final(self).clock == old(self).clock,
            any_overflows(old(self).items@, batch@) ==> result == Err::<u64, StoreFailure>(
                StoreFailure::OutOfRange,
            ) && final(self).items == old(self).items,
            !any_overflows(old(self).items@, batch@) ==> result == Ok::<u64, StoreFailure>(
                affected(old(self).items@, batch@, old(self).items@.len()) as u64,
            ) && final(self).items@ == rows_after(old(self).items@, batch@),
    {
        let mut next: Vec<StoredItem> = Vec::new();
        let mut count: u64 = 0;
        let mut k: usize = 0;
        while k < self.items.len()
            invariant
                k <= self.items@.len(),
                *self == *old(self),
                self.wf(),
                next@.len() == k,
                count == affected(self.items@, batch@, k as nat),
                count <= k,
                forall|i: int| 0 <= i < k ==> !row_overflows(#[trigger] self.items@[i], batch@),
                forall|i: int|
                    0 <= i < k ==> #[trigger] next@[i] == row_after(self.items@[i], batch@),
            decreases self.items@.len() - k,
        {
            let row = self.items[k];
            match find_change(batch, row.id) {
                Some(change) => {
                    let quantity = match change.quantity {
                        Some(quantity) => quantity,
                        None => row.quantity,
                    };
                    let delivered: i64 = match change.delivered_quantity {
                        Some(amount) => row.delivered_quantity as i64 + amount as i64,
                        None => row.delivered_quantity as i64,
                    };
                    if delivered < i32::MIN as i64 || delivered > i32::MAX as i64 {
                        assert(row_overflows(self.items@[k as int], batch@));
                        return Err(StoreFailure::OutOfRange);
                    }
                    next.push(
                        StoredItem {
                            id: row.id,
                            tables_id: row.tables_id,
                            menu_id: row.menu_id,
                            quantity,
                            delivered_quantity: delivered as i32,
                            created_at: row.created_at,
                        },
                    );
                    count += 1;
                },
                None => {
                    next.push(row);
                },
            }
            k += 1;
        }
        assert(next@ =~= rows_after(self.items@, batch@));
        self.items = next;
        Ok(count)
    }
}

} // verus!
