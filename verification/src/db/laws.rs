//! What holds of the batch operations for every store and every batch.

use vstd::prelude::*;
use crate::db::connection::{NewItemRequest, UpdateItemRequest};
use crate::db::plan::{distinct_ids, rows_for};
use crate::db::insert::stamped_rows;
use crate::db::query::{holds_item, is_remaining_for, item_index, joined, window};
use crate::db::store::{has_item, Store, StoredItem};
use crate::db::update::{affected, any_overflows, change_for, row_overflows, rows_after};
use crate::models::restaurant_models::PartialItem;

verus! {

/// Where none of the first `n` changes names `id`, no change is found for it.
pub proof fn lemma_change_for_none(batch: Seq<UpdateItemRequest>, n: nat, id: u128)
    requires
        n <= batch.len(),
        forall|i: int| 0 <= i < n ==> (#[trigger] batch[i]).id != id,
    ensures
        change_for(batch, n, id) is None,
    decreases n,
{
    if n > 0 {
        lemma_change_for_none(batch, (n - 1) as nat, id);
    }
}

/// The change found for `id` is the first one that names it.
pub proof fn lemma_change_for_first(batch: Seq<UpdateItemRequest>, n: nat, i: int, id: u128)
    requires
        0 <= i < n <= batch.len(),
        batch[i].id == id,
        forall|j: int| 0 <= j < i ==> (#[trigger] batch[j]).id != id,
    ensures
        change_for(batch, n, id) == Some(batch[i]),
    decreases n,
{
    if n - 1 == i {
        lemma_change_for_none(batch, i as nat, id);
    } else {
        lemma_change_for_first(batch, (n - 1) as nat, i, id);
    }
}

/// A successful creation adds exactly one row per request. Each added row
/// belongs to the table asked for, has the menu entry and the quantity of its
/// request and a delivered quantity of zero; the rows stored before are as
/// they were; and no two rows of the store share an identifier afterwards.
pub proof fn law_creation_adds_each_request_once(
    store: Store,
    rows: Seq<PartialItem>,
    tables_id: u128,
    requests: Seq<NewItemRequest>,
)
    requires
        store.wf(),
        rows_for(rows, tables_id, requests),
        store.insert_failure(rows, rows.len()) is None,
    ensures
        ({
            let before = store.items@;
            let after = store.items@ + stamped_rows(rows, store.clock);
            &&& after.len() == before.len() + requests.len()
            &&& forall|k: int| 0 <= k < before.len() ==> #[trigger] after[k] == before[k]
            &&& forall|k: int|
                0 <= k < requests.len() ==> {
                    &&& (#[trigger] after[before.len() + k]).tables_id == tables_id
                    &&& after[before.len() + k].menu_id == requests[k].menu_id
                    &&& after[before.len() + k].quantity == requests[k].quantity
                    &&& after[before.len() + k].delivered_quantity == 0
                    &&& after[before.len() + k].id == rows[k].id
                }
            &&& forall|j: int, k: int|
                0 <= j < k < after.len() ==> (#[trigger] after[j]).id != (#[trigger] after[k]).id
        }),
        distinct_ids(rows),
        forall|k: int| 0 <= k < rows.len() ==> !has_item(store.items@, (#[trigger] rows[k]).id),
{
    let before = store.items@;
    let after = store.items@ + stamped_rows(rows, store.clock);
    store.lemma_no_failure(rows, rows.len());
    assert forall|k: int| 0 <= k < rows.len() implies !has_item(
        store.items@,
        (#[trigger] rows[k]).id,
    ) by {
        assert(store.row_failure(rows, k) is None);
    }
    assert forall|j: int, k: int| 0 <= j < k < rows.len() implies (#[trigger] rows[j]).id != (
    #[trigger] rows[k]).id by {
        assert(store.row_failure(rows, k) is None);
    }
    assert forall|j: int, k: int| 0 <= j < k < after.len() implies (#[trigger] after[j]).id != (
    #[trigger] after[k]).id by {
        if k >= before.len() {
            let b = k - before.len();
            assert(store.row_failure(rows, b) is None);
            if j >= before.len() {
                assert(rows[j - before.len()].id == after[j].id);
            } else {
                assert(before[j] == after[j]);
            }
        } else {
            assert(before[j] == after[j]);
            assert(before[k] == after[k]);
        }
    }
}

/// A row whose identifier no change of the batch names is the same row after
/// the batch as before, and cannot make the batch fail.
pub proof fn law_unnamed_row_stays(items: Seq<StoredItem>, batch: Seq<UpdateItemRequest>, k: int)
    requires
        0 <= k < items.len(),
        forall|i: int| 0 <= i < batch.len() ==> (#[trigger] batch[i]).id != items[k].id,
    ensures
        rows_after(items, batch)[k] == items[k],
        !row_overflows(items[k], batch),
{
    lemma_change_for_none(batch, batch.len(), items[k].id);
}

/// A row that the batch names changes as the first change that names it says:
/// a quantity given replaces the stored one, whatever that was, and a
/// delivered amount given is added to the stored delivered quantity. What the
/// change leaves out stays, and so do the row's identifier, table, menu
/// entry and time of creation.
pub proof fn law_named_row_changes(
    items: Seq<StoredItem>,
    batch: Seq<UpdateItemRequest>,
    k: int,
    i: int,
)
    requires
        0 <= k < items.len(),
        0 <= i < batch.len(),
        batch[i].id == items[k].id,
        forall|j: int| 0 <= j < i ==> (#[trigger] batch[j]).id != items[k].id,
        !any_overflows(items, batch),
    ensures
        rows_after(items, batch)[k].quantity == (match batch[i].quantity {
            Some(quantity) => quantity,
            None => items[k].quantity,
        }),
        rows_after(items, batch)[k].delivered_quantity == items[k].delivered_quantity + (
        match batch[i].delivered_quantity {
            Some(amount) => amount as int,
            None => 0,
        }),
        rows_after(items, batch)[k].id == items[k].id,
        rows_after(items, batch)[k].tables_id == items[k].tables_id,
        rows_after(items, batch)[k].menu_id == items[k].menu_id,
        rows_after(items, batch)[k].created_at == items[k].created_at,
{
    lemma_change_for_first(batch, batch.len(), i, items[k].id);
    assert(!row_overflows(items[k], batch));
}

/// Every row that a listing returns is a stored row of the table asked for,
/// joined with its menu entry, whose quantity exceeds its delivered quantity;
/// where the listing is restricted to one menu entry, the row is of that
/// entry.
pub proof fn law_listing_returns_only_remaining(
    store: Store,
    tables_id: u128,
    menu_id: Option<u128>,
    limit: nat,
    offset: nat,
    k: int,
)
    requires
        0 <= k < store.remaining(tables_id, menu_id, limit, offset).len(),
    ensures
        ({
            let row = store.remaining(tables_id, menu_id, limit, offset)[k];
            &&& row.quantity > row.delivered_quantity
            &&& row.tables_id == tables_id
            &&& menu_id is Some ==> row.menu_id == menu_id->0
            &&& exists|i: int|
                0 <= i < store.items@.len() && row == joined(
                    store.menu@,
                    #[trigger] store.items@[i],
                )
        }),
{
    let test = is_remaining_for(tables_id, menu_id);
    let all = store.items@.filter(test);
    let shown = window(all, limit, offset);
    let start = if offset < all.len() {
        offset
    } else {
        all.len()
    };
    assert(shown[k] == all[start + k]);
    store.items@.lemma_filter_pred(test, start + k);
    assert(all.contains(all[start + k]));
    store.items@.lemma_filter_contains_rev(test, all[start + k]);
    let i = choose|i: int| 0 <= i < store.items@.len() && store.items@[i] == all[start + k];
    assert(store.remaining(tables_id, menu_id, limit, offset)[k] == joined(
        store.menu@,
        store.items@[i],
    ));
}

/// A listing that skips nothing and whose limit is no smaller than the number
/// of stored rows leaves out no row of the table that is still to be
/// delivered: without a restriction all of them are returned, with one all of
/// that menu entry.
pub proof fn law_listing_misses_nothing(
    store: Store,
    tables_id: u128,
    menu_id: Option<u128>,
    limit: nat,
    i: int,
)
    requires
        0 <= i < store.items@.len(),
        limit >= store.items@.len(),
        store.items@[i].tables_id == tables_id,
        store.items@[i].quantity > store.items@[i].delivered_quantity,
        menu_id is Some ==> store.items@[i].menu_id == menu_id->0,
    ensures
        store.remaining(tables_id, menu_id, limit, 0).contains(
            joined(store.menu@, store.items@[i]),
        ),
{
    let test = is_remaining_for(tables_id, menu_id);
    let all = store.items@.filter(test);
    assert(test(store.items@[i]));
    store.items@.lemma_filter_contains(test, i);
    store.items@.lemma_filter_len(test);
    let j = choose|j: int| 0 <= j < all.len() && all[j] == store.items@[i];
    assert(window(all, limit, 0) =~= all);
    let shown = store.remaining(tables_id, menu_id, limit, 0);
    assert(shown[j] == joined(store.menu@, store.items@[i]));
}

/// A batch none of whose changes names a stored row touches nothing: the
/// rows stay as they are, the count is zero, and the batch cannot fail.
pub proof fn law_unknown_rows_are_passed_over(
    items: Seq<StoredItem>,
    batch: Seq<UpdateItemRequest>,
)
    requires
        forall|k: int, i: int|
            0 <= k < items.len() && 0 <= i < batch.len() ==> (#[trigger] batch[i]).id != (
            #[trigger] items[k]).id,
    ensures
        rows_after(items, batch) == items,
        affected(items, batch, items.len()) == 0,
        !any_overflows(items, batch),
{
    assert forall|k: int| 0 <= k < items.len() implies change_for(
        batch,
        batch.len(),
        (#[trigger] items[k]).id,
    ) is None by {
        lemma_change_for_none(batch, batch.len(), items[k].id);
    }
    assert(rows_after(items, batch) =~= items);
    lemma_none_affected(items, batch, items.len());
}

proof fn lemma_none_affected(items: Seq<StoredItem>, batch: Seq<UpdateItemRequest>, n: nat)
    requires
        n <= items.len(),
        forall|k: int|
            0 <= k < items.len() ==> change_for(batch, batch.len(), (#[trigger] items[k]).id)
                is None,
    ensures
        affected(items, batch, n) == 0,
    decreases n,
{
    if n > 0 {
        lemma_none_affected(items, batch, (n - 1) as nat);
    }
}

/// The number of rows among the first `n` of `items` that one of the first
/// `m` changes of `batch` names.
pub open spec fn named_rows(
    items: Seq<StoredItem>,
    batch: Seq<UpdateItemRequest>,
    m: nat,
    n: nat,
) -> nat
    decreases n,
{
    if n == 0 {
        0
    } else {
        named_rows(items, batch, m, (n - 1) as nat) + if change_for(batch, m, items[n - 1].id)
            is Some {
            1nat
        } else {
            0nat
        }
    }
}

/// The number of rows among the first `n` of `items` with the identifier
/// `id`.
pub open spec fn rows_with_id(items: Seq<StoredItem>, id: u128, n: nat) -> nat
    decreases n,
{
    if n == 0 {
        0
    } else {
        rows_with_id(items, id, (n - 1) as nat) + if items[n - 1].id == id {
            1nat
        } else {
            0nat
        }
    }
}

proof fn lemma_no_row_with_id(items: Seq<StoredItem>, id: u128, n: nat)
    requires
        n <= items.len(),
        forall|k: int| 0 <= k < n ==> (#[trigger] items[k]).id != id,
    ensures
        rows_with_id(items, id, n) == 0,
    decreases n,
{
    if n > 0 {
        lemma_no_row_with_id(items, id, (n - 1) as nat);
    }
}

proof fn lemma_one_row_with_id(items: Seq<StoredItem>, id: u128, n: nat)
    requires
        n <= items.len(),
        forall|j: int, k: int|
            0 <= j < k < items.len() ==> (#[trigger] items[j]).id != (#[trigger] items[k]).id,
    ensures
        rows_with_id(items, id, n) <= 1,
    decreases n,
{
    if n > 0 {
        if items[n - 1].id == id {
            lemma_no_row_with_id(items, id, (n - 1) as nat);
        } else {
            lemma_one_row_with_id(items, id, (n - 1) as nat);
        }
    }
}

proof fn lemma_one_more_change(
    items: Seq<StoredItem>,
    batch: Seq<UpdateItemRequest>,
    m: nat,
    n: nat,
)
    requires
        n <= items.len(),
        0 < m <= batch.len(),
    ensures
        named_rows(items, batch, m, n) <= named_rows(items, batch, (m - 1) as nat, n)
            + rows_with_id(items, batch[m - 1].id, n),
    decreases n,
{
    if n > 0 {
        lemma_one_more_change(items, batch, m, (n - 1) as nat);
    }
}

proof fn lemma_named_rows_bound(
    items: Seq<StoredItem>,
    batch: Seq<UpdateItemRequest>,
    m: nat,
    n: nat,
)
    requires
        n <= items.len(),
        m <= batch.len(),
        forall|j: int, k: int|
            0 <= j < k < items.len() ==> (#[trigger] items[j]).id != (#[trigger] items[k]).id,
    ensures
        named_rows(items, batch, m, n) <= m,
    decreases m,
{
    if m == 0 {
        lemma_no_change_names(items, batch, n);
    } else {
        lemma_named_rows_bound(items, batch, (m - 1) as nat, n);
        lemma_one_more_change(items, batch, m, n);
        lemma_one_row_with_id(items, batch[m - 1].id, n);
    }
}

proof fn lemma_no_change_names(items: Seq<StoredItem>, batch: Seq<UpdateItemRequest>, n: nat)
    ensures
        named_rows(items, batch, 0, n) == 0,
    decreases n,
{
    if n > 0 {
        lemma_no_change_names(items, batch, (n - 1) as nat);
    }
}

proof fn lemma_affected_is_named(items: Seq<StoredItem>, batch: Seq<UpdateItemRequest>, n: nat)
    ensures
        affected(items, batch, n) == named_rows(items, batch, batch.len(), n),
    decreases n,
{
    if n > 0 {
        lemma_affected_is_named(items, batch, (n - 1) as nat);
    }
}

/// The number of rows that a batch touches exceeds neither the number of its
/// changes nor the number of rows stored; it falls short of the first where
/// changes name no row, or the same row twice.
pub proof fn law_touched_rows_are_bounded(store: Store, batch: Seq<UpdateItemRequest>)
    requires
        store.wf(),
    ensures
        affected(store.items@, batch, store.items@.len()) <= batch.len(),
        affected(store.items@, batch, store.items@.len()) <= store.items@.len(),
{
    lemma_affected_is_named(store.items@, batch, store.items@.len());
    lemma_named_rows_bound(store.items@, batch, batch.len(), store.items@.len());
    crate::db::update::lemma_affected_bound(store.items@, batch, store.items@.len());
}

/// A listing returns no more rows than its limit allows.
pub proof fn law_listing_respects_limit(
    store: Store,
    tables_id: u128,
    menu_id: Option<u128>,
    limit: nat,
    offset: nat,
)
    ensures
        store.remaining(tables_id, menu_id, limit, offset).len() <= limit,
{
}

/// Once a row is removed, the store holds no row with its identifier, and
/// every other row is still there.
pub proof fn law_removed_row_is_gone(store: Store, tables_id: u128, item_id: u128)
    requires
        store.wf(),
        holds_item(store.items@, tables_id, item_id),
    ensures
        ({
            let k = item_index(store.items@, tables_id, item_id);
            let after = store.items@.remove(k);
            &&& !has_item(after, item_id)
            &&& !holds_item(after, tables_id, item_id)
            &&& after.len() == store.items@.len() - 1
            &&& forall|i: int|
                0 <= i < store.items@.len() && i != k ==> after.contains(#[trigger] store.items@[i])
        }),
{
    let k = item_index(store.items@, tables_id, item_id);
    let after = store.items@.remove(k);
    assert forall|i: int| 0 <= i < after.len() implies (#[trigger] after[i]).id != item_id by {
        if i < k {
            assert(after[i] == store.items@[i]);
        } else {
            assert(after[i] == store.items@[i + 1]);
        }
    }
    assert forall|i: int| 0 <= i < store.items@.len() && i != k implies after.contains(
        #[trigger] store.items@[i],
    ) by {
        if i < k {
            assert(after[i] == store.items@[i]);
        } else {
            assert(after[i - 1] == store.items@[i]);
        }
    }
}

/// True when no row of `rows` was created before a row that stands ahead of
/// it.
pub open spec fn oldest_first(rows: Seq<StoredItem>) -> bool {
    forall|i: int, j: int|
        0 <= i < j < rows.len() ==> (#[trigger] rows[i]).created_at <= (
        #[trigger] rows[j]).created_at
}

proof fn lemma_filter_keeps_order(rows: Seq<StoredItem>, test: spec_fn(StoredItem) -> bool)
    requires
        oldest_first(rows),
    ensures
        oldest_first(rows.filter(test)),
    decreases rows.len(),
{
    reveal(Seq::filter);
    if rows.len() > 0 {
        let rest = rows.drop_last();
        let kept = rest.filter(test);
        assert(oldest_first(rest)) by {
            assert forall|i: int, j: int| 0 <= i < j < rest.len() implies (
            #[trigger] rest[i]).created_at <= (#[trigger] rest[j]).created_at by {
                assert(rest[i] == rows[i]);
                assert(rest[j] == rows[j]);
            }
        }
        lemma_filter_keeps_order(rest, test);
        if test(rows.last()) {
            let all = kept.push(rows.last());
            assert forall|i: int, j: int| 0 <= i < j < all.len() implies (
            #[trigger] all[i]).created_at <= (#[trigger] all[j]).created_at by {
                if j == kept.len() {
                    assert(kept.contains(kept[i]));
                    rest.lemma_filter_contains_rev(test, kept[i]);
                    let k = choose|k: int| 0 <= k < rest.len() && rest[k] == kept[i];
                    assert(rows[k] == kept[i]);
                    assert(rows[rows.len() - 1] == all[j]);
                } else {
                    assert(all[i] == kept[i]);
                    assert(all[j] == kept[j]);
                }
            }
        }
    }
}

/// A listing returns its rows oldest first: no row comes before one that was
/// created earlier.
pub proof fn law_listing_is_oldest_first(
    store: Store,
    tables_id: u128,
    menu_id: Option<u128>,
    limit: nat,
    offset: nat,
)
    requires
        store.wf(),
    ensures
        forall|i: int, j: int|
            0 <= i < j < store.remaining(tables_id, menu_id, limit, offset).len() ==> (
            #[trigger] store.remaining(tables_id, menu_id, limit, offset)[i]).created_at <= (
            #[trigger] store.remaining(tables_id, menu_id, limit, offset)[j]).created_at,
{
    let test = is_remaining_for(tables_id, menu_id);
    let all = store.items@.filter(test);
    lemma_filter_keeps_order(store.items@, test);
    let shown = window(all, limit, offset);
    let start = if offset < all.len() {
        offset
    } else {
        all.len()
    };
    let listed = store.remaining(tables_id, menu_id, limit, offset);
    assert forall|i: int, j: int| 0 <= i < j < listed.len() implies (
    #[trigger] listed[i]).created_at <= (#[trigger] listed[j]).created_at by {
        assert(shown[i] == all[start + i]);
        assert(shown[j] == all[start + j]);
        assert(listed[i] == joined(store.menu@, shown[i]));
        assert(listed[j] == joined(store.menu@, shown[j]));
    }
}

} // verus!
