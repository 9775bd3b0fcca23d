//! The storage gateway: the operations on tables, the menu and order lines.
//!
//! The gateway of this module works on the in-process store. A gateway over a
//! remote store prepares its batches with the same functions, sends the
//! statements that they plan, and is held to the same rules.

use vstd::prelude::*;
use crate::db::error::{DbError, Operation};
use crate::db::ids::{fresh_id, is_random_id};
use crate::db::insert::{stamped, stamped_rows};
use crate::db::laws::{
    law_creation_adds_each_request_once, law_listing_returns_only_remaining,
    law_touched_rows_are_bounded,
};
use crate::db::plan::{
    distinct_ids, found_or_missing, new_menu_entry, new_row, new_table, prepare_items, rows_for,
    spec_new_row, was_deleted,
};
use crate::db::query::{holds_item, item_index, joined};
use crate::db::store::{has_item, has_menu, has_table, Store, StoreFailure, StoredItem};
use crate::db::update::{affected, any_overflows, rows_after};
use crate::models::restaurant_models::{Menu, PartialItem, PartialItemReturn, Price, Table};
use crate::models::route_models::{FilterParams, Pagination};

verus! {

/// The largest number of requests that one batch may hold.
pub const MAX_ITEMS_LIMIT: usize = 100;

/// A request for one new order line.
#[derive(Debug, Clone, Copy, PartialEq, Eq, Structural)]
pub struct NewItemRequest {
    pub quantity: i32,
    pub menu_id: u128,
}

/// A batch of requests for new order lines.
#[derive(Debug)]
pub struct BulkNewItemRequest {
    pub items: Vec<NewItemRequest>,
}

/// A change to one order line: a new quantity, which replaces the stored one,
/// and a number of units just brought out, which is added to the stored
/// delivered quantity. Either may be absent.
#[derive(Debug, Clone, Copy, PartialEq, Eq, Structural)]
pub struct UpdateItemRequest {
    pub id: u128,
    pub quantity: Option<i32>,
    pub delivered_quantity: Option<i32>,
}

/// A batch of changes to order lines.
#[derive(Debug)]
pub struct BulkUpdateItemRequest {
    pub items: Vec<UpdateItemRequest>,
}

/// The change that a single update applies to the row `item_id`: what
/// `updated_item` asks for, under that identifier.
pub open spec fn single_change(
    item_id: u128,
    updated_item: UpdateItemRequest,
) -> UpdateItemRequest {
    UpdateItemRequest {
        id: item_id,
        quantity: updated_item.quantity,
        delivered_quantity: updated_item.delivered_quantity,
    }
}

/// What inserting `rows` as one batch comes to, on a store that was `before`:
/// `result` is what is reported and `after` the order lines held afterwards. A
/// batch over the limit is refused; otherwise the store takes all rows, behind
/// those it held and stamped with the present time, or refuses all and keeps
/// what it held.
pub open spec fn rows_inserted(
    before: Store,
    rows: Seq<PartialItem>,
    result: Result<Vec<PartialItem>, DbError>,
    after: Seq<StoredItem>,
) -> bool {
    if rows.len() > MAX_ITEMS_LIMIT {
        result == Err::<Vec<PartialItem>, DbError>(DbError::LimitExceeded) && after
            == before.items@
    } else {
        match before.insert_failure(rows, rows.len()) {
            Some(failure) => result == Err::<Vec<PartialItem>, DbError>(
                DbError::Store(Operation::CreatingItems, failure),
            ) && after == before.items@,
            None => result is Ok && result->Ok_0@ == rows && after == before.items@
                + stamped_rows(rows, before.clock),
        }
    }
}

/// What inserting the one row `row` comes to, on a store that was `before`:
/// `result` is what is reported and `after` the order lines held afterwards.
pub open spec fn row_inserted(
    before: Store,
    row: PartialItem,
    result: Result<(), DbError>,
    after: Seq<StoredItem>,
) -> bool {
    match before.row_failure(seq![row], 0) {
        Some(failure) => result == Err::<(), DbError>(
            DbError::Store(Operation::CreatingItem, failure),
        ) && after == before.items@,
        None => result is Ok && after == before.items@.push(stamped(row, before.clock)),
    }
}

/// What adding `table` comes to, where the tables were `before`: `result` is
/// what is reported and `after` the tables held afterwards.
pub open spec fn table_added(
    before: Seq<Table>,
    table: Table,
    result: Result<Table, DbError>,
    after: Seq<Table>,
) -> bool {
    if has_table(before, table.id) {
        result == Err::<Table, DbError>(
            DbError::Store(Operation::AddingTable, StoreFailure::DuplicateId),
        ) && after == before
    } else {
        result == Ok::<Table, DbError>(table) && after == before.push(table)
    }
}

/// What adding `entry` comes to, where the menu was `before`: `result` is what
/// is reported and `after` the menu held afterwards.
pub open spec fn menu_added(
    before: Seq<Menu>,
    entry: Menu,
    result: Result<Menu, DbError>,
    after: Seq<Menu>,
) -> bool {
    if has_menu(before, entry.id) {
        result == Err::<Menu, DbError>(
            DbError::Store(Operation::AddingMenu, StoreFailure::DuplicateId),
        ) && after == before
    } else {
        result == Ok::<Menu, DbError>(entry) && after == before.push(entry)
    }
}

/// The storage gateway over an in-process store.
#[derive(Debug)]
pub struct Database {
    pub store: Store,
}

impl Database {
    /// A gateway over an empty store.
    pub fn new() -> (db: Database)
        ensures
            db.store.wf(),
            db.store.tables@.len() == 0,
            db.store.menu@.len() == 0,
            db.store.items@.len() == 0,
            db.store.clock == 0,
    {
        Database { store: Store::new() }
    }

    /// All tables, in the order in which they were added.
    pub fn get_tables(&self) -> (result: Result<Vec<Table>, DbError>)
        ensures
            result is Ok,
            result->Ok_0@ == self.store.tables@,
    {
        Ok(self.store.select_tables())
    }

    /// Adds a table called `name` under a newly drawn identifier and reports
    /// it. The store refuses an identifier that a table has already, and is
    /// then as it was.
    pub fn add_table(&mut self, name: String) -> (result: Result<Table, DbError>)
        requires
            old(self).store.wf(),
        ensures
            final(self).store.wf(),
            final(self).store.menu == old(self).store.menu,
            final(self).store.items == old(self).store.items,
            final(self).store.clock == old(self).store.clock,
            exists|id: u128|
                is_random_id(id) && #[trigger] table_added(
                    old(self).store.tables@,
                    (Table { id, name }),
                    result,
                    final(self).store.tables@,
                ),
    {
        let table = new_table(name);
        let result = match self.store.insert_table(table.id, table.name.clone()) {
            Ok(_) => Ok(table),
            Err(failure) => Err(DbError::Store(Operation::AddingTable, failure)),
        };
        assert(table_added(
            old(self).store.tables@,
            (Table { id: table.id, name }),
            result,
            self.store.tables@,
        ));
        result
    }

    /// All menu entries, in the order in which they were added.
    pub fn get_menu(&self) -> (result: Result<Vec<Menu>, DbError>)
        ensures
            result is Ok,
            result->Ok_0@ == self.store.menu@,
    {
        Ok(self.store.select_menu())
    }

    /// Adds a menu entry under a newly drawn identifier and reports it. The
    /// store refuses an identifier that an entry has already, and is then as it
    /// was.
    pub fn add_menu(&mut self, name: String, price: Price, prep_time: i32) -> (result: Result<
        Menu,
        DbError,
    >)
        requires
            old(self).store.wf(),
        ensures
            final(self).store.wf(),
            final(self).store.tables == old(self).store.tables,
            final(self).store.items == old(self).store.items,
            final(self).store.clock == old(self).store.clock,
            exists|id: u128|
                is_random_id(id) && #[trigger] menu_added(
                    old(self).store.menu@,
                    (Menu { id, name, price, prep_time }),
                    result,
                    final(self).store.menu@,
                ),
    {
        let entry = new_menu_entry(name, price, prep_time);
        let result = match self.store.insert_menu(
            entry.id,
            entry.name.clone(),
            entry.price,
            entry.prep_time,
        ) {
            Ok(_) => Ok(entry),
            Err(failure) => Err(DbError::Store(Operation::AddingMenu, failure)),
        };
        assert(menu_added(
            old(self).store.menu@,
            (Menu { id: entry.id, name, price, prep_time }),
            result,
            self.store.menu@,
        ));
        result
    }

    /// Lists what is still to be brought out to the table `tables_id`: its
    /// order lines whose quantity exceeds their delivered quantity, those of
    /// one menu entry alone where the filter names one, each joined with the
    /// preparation time of its menu entry. The rows come in the order of their
    /// creation. Where the caller names no limit, ten rows are returned at
    /// most; where it names no offset, none is skipped.
    pub fn get_all_remaining_items_from_table(
        &self,
        tables_id: u128,
        pagination: Pagination,
        filters: FilterParams,
    ) -> (result: Result<Vec<PartialItemReturn>, DbError>)
        requires
            self.store.wf(),
        ensures
            result is Ok,
            result->Ok_0@ == self.store.remaining(
                tables_id,
                filters.menu_id,
                pagination.spec_limit() as nat,
                pagination.spec_offset() as nat,
            ),
            forall|k: int|
                0 <= k < result->Ok_0@.len() ==> {
                    &&& (#[trigger] result->Ok_0@[k]).quantity > result->Ok_0@[k].delivered_quantity
                    &&& result->Ok_0@[k].tables_id == tables_id
                    &&& filters.menu_id is Some ==> result->Ok_0@[k].menu_id == filters.menu_id->0
                },
    {
        let limit = pagination.effective_limit();
        let offset = pagination.effective_offset();
        let rows = self.store.select_remaining(tables_id, filters.menu_id, limit, offset);
        proof {
            assert forall|k: int| 0 <= k < rows@.len() implies {
                &&& (#[trigger] rows@[k]).quantity > rows@[k].delivered_quantity
                &&& rows@[k].tables_id == tables_id
                &&& filters.menu_id is Some ==> rows@[k].menu_id == filters.menu_id->0
            } by {
                law_listing_returns_only_remaining(
                    self.store,
                    tables_id,
                    filters.menu_id,
                    limit as nat,
                    offset as nat,
                    k,
                );
            }
        }
        Ok(rows)
    }

    /// Inserts `rows` as one batch and reports them back. A batch over the
    /// limit is refused before the store sees it; an empty batch succeeds and
    /// changes nothing; otherwise the rows are inserted as one statement, which
    /// the store either takes whole or refuses whole.
    pub fn insert_rows(&mut self, rows: Vec<PartialItem>) -> (result: Result<
        Vec<PartialItem>,
        DbError,
    >)
        requires
            old(self).store.wf(),
        ensures
            final(self).store.wf(),
            final(self).store.tables == old(self).store.tables,
            final(self).store.menu == old(self).store.menu,
            final(self).store.clock == old(self).store.clock,
            rows_inserted(old(self).store, rows@, result, final(self).store.items@),
    {
        if rows.len() > MAX_ITEMS_LIMIT {
            return Err(DbError::LimitExceeded);
        }
        match self.store.insert_items(&rows) {
            Ok(_) => Ok(rows),
            Err(failure) => Err(DbError::Store(Operation::CreatingItems, failure)),
        }
    }

    /// Creates one order line per request for the table `tables_id`, all in
    /// one statement, and reports the rows as inserted.
    ///
    /// A batch of more than a hundred requests fails with `LimitExceeded` and
    /// persists nothing. Otherwise every request gets a newly drawn
    /// identifier, and the outcome is that of inserting the rows so made. On
    /// success the store holds exactly the rows reported, behind those it held
    /// before: one per request, in order, none of it delivered, under
    /// identifiers that differ from one another and from every row stored
    /// before. On failure the store is as it was. An empty batch succeeds.
    pub fn create_items(&mut self, tables_id: u128, new_items: Vec<NewItemRequest>) -> (result:
        Result<Vec<PartialItem>, DbError>)
        requires
            old(self).store.wf(),
        ensures
            final(self).store.wf(),
            final(self).store.tables == old(self).store.tables,
            final(self).store.menu == old(self).store.menu,
            final(self).store.clock == old(self).store.clock,
            new_items@.len() > MAX_ITEMS_LIMIT ==> result == Err::<Vec<PartialItem>, DbError>(
                DbError::LimitExceeded,
            ),
            new_items@.len() <= MAX_ITEMS_LIMIT ==> exists|rows: Seq<PartialItem>|
                rows_for(rows, tables_id, new_items@) && #[trigger] rows_inserted(
                    old(self).store,
                    rows,
                    result,
                    final(self).store.items@,
                ),
            new_items@.len() == 0 ==> result is Ok,
            result is Ok ==> {
                &&& rows_for(result->Ok_0@, tables_id, new_items@)
                &&& distinct_ids(result->Ok_0@)
                &&& forall|k: int|
                    0 <= k < result->Ok_0@.len() ==> !has_item(
                        old(self).store.items@,
                        (#[trigger] result->Ok_0@[k]).id,
                    )
                &&& final(self).store.items@ == old(self).store.items@ + stamped_rows(
                    result->Ok_0@,
                    old(self).store.clock,
                )
            },
            result is Err ==> final(self).store.items@ == old(self).store.items@,
    {
        let rows = match prepare_items(tables_id, &new_items) {
            Ok(rows) => rows,
            Err(error) => { return Err(error); },
        };
        let ghost made = rows@;
        proof {
            if self.store.insert_failure(made, made.len()) is None {
                law_creation_adds_each_request_once(self.store, made, tables_id, new_items@);
            }
        }
        let result = self.insert_rows(rows);
        assert(rows_inserted(old(self).store, made, result, self.store.items@));
        result
    }

    /// Inserts the one order line `row`. It is added behind the rows already
    /// stored, stamped with the present time, unless the store refuses it; then
    /// the store is as it was.
    pub fn insert_row(&mut self, row: PartialItem) -> (result: Result<(), DbError>)
        requires
            old(self).store.wf(),
        ensures
            final(self).store.wf(),
            final(self).store.tables == old(self).store.tables,
            final(self).store.menu == old(self).store.menu,
            final(self).store.clock == old(self).store.clock,
            row_inserted(old(self).store, row, result, final(self).store.items@),
    {
        let mut rows: Vec<PartialItem> = Vec::new();
        rows.push(row);
        proof {
            assert(rows@ =~= seq![row]);
            assert(self.store.insert_failure(rows@, 1) == self.store.row_failure(rows@, 0)) by {
                reveal_with_fuel(Store::insert_failure, 2);
            }
        }
        match self.store.insert_items(&rows) {
            Ok(_) => {
                assert(self.store.items@ =~= old(self).store.items@.push(
                    stamped(row, old(self).store.clock),
                ));
                Ok(())
            },
            Err(failure) => Err(DbError::Store(Operation::CreatingItem, failure)),
        }
    }

    /// Creates one order line for the table `tables_id` under a newly drawn
    /// identifier, none of it delivered. The outcome is that of inserting the
    /// row so made: on success the store holds that one row more, behind the
    /// others; on failure it is as it was.
    pub fn create_item(&mut self, tables_id: u128, new_item: NewItemRequest) -> (result: Result<
        (),
        DbError,
    >)
        requires
            old(self).store.wf(),
        ensures
            final(self).store.wf(),
            final(self).store.tables == old(self).store.tables,
            final(self).store.menu == old(self).store.menu,
            final(self).store.clock == old(self).store.clock,
            exists|id: u128|
                is_random_id(id) && #[trigger] row_inserted(
                    old(self).store,
                    spec_new_row(tables_id, new_item, id),
                    result,
                    final(self).store.items@,
                ),
            result is Ok ==> {
                &&& final(self).store.items@.len() == old(self).store.items@.len() + 1
                &&& final(self).store.items@.drop_last() == old(self).store.items@
                &&& final(self).store.items@.last().tables_id == tables_id
                &&& final(self).store.items@.last().menu_id == new_item.menu_id
                &&& final(self).store.items@.last().quantity == new_item.quantity
                &&& final(self).store.items@.last().delivered_quantity == 0
            },
            result is Err ==> final(self).store.items@ == old(self).store.items@,
    {
        let id = fresh_id();
        let row = new_row(tables_id, &new_item, id);
        let result = self.insert_row(row);
        proof {
            assert(row_inserted(old(self).store, row, result, self.store.items@));
            if result is Ok {
                assert(self.store.items@.drop_last() =~= old(self).store.items@);
            }
        }
        result
    }

    /// Reads the order line `item_id` of the table `tables_id`, joined with the
    /// preparation time of its menu entry. Both identifiers must match; where
    /// no row does, the result is `NotFound`.
    pub fn get_item(&self, tables_id: u128, item_id: u128) -> (result: Result<
        PartialItemReturn,
        DbError,
    >)
        requires
            self.store.wf(),
        ensures
            holds_item(self.store.items@, tables_id, item_id) ==> result == Ok::<
                PartialItemReturn,
                DbError,
            >(
                joined(
                    self.store.menu@,
                    self.store.items@[item_index(self.store.items@, tables_id, item_id)],
                ),
            ),
            !holds_item(self.store.items@, tables_id, item_id) ==> result == Err::<
                PartialItemReturn,
                DbError,
            >(DbError::NotFound),
    {
        found_or_missing(self.store.select_item(tables_id, item_id))
    }

    /// Deletes the order line `item_id` of the table `tables_id` and tells
    /// whether a row went. That no row matched is no error.
    pub fn delete_item(&mut self, tables_id: u128, item_id: u128) -> (result: Result<bool, DbError>)
        requires
            old(self).store.wf(),
        ensures
            final(self).store.wf(),
            final(self).store.tables == old(self).store.tables,
            final(self).store.menu == old(self).store.menu,
            final(self).store.clock == old(self).store.clock,
            result == Ok::<bool, DbError>(holds_item(old(self).store.items@, tables_id, item_id)),
            holds_item(old(self).store.items@, tables_id, item_id) ==> final(self).store.items@
                == old(self).store.items@.remove(
                item_index(old(self).store.items@, tables_id, item_id),
            ),
            !holds_item(old(self).store.items@, tables_id, item_id) ==> final(self).store.items
                == old(self).store.items,
    {
        let removed = self.store.delete_item(tables_id, item_id);
        Ok(was_deleted(removed))
    }

    /// Applies one change to the order line `item_id`; the identifier inside
    /// the change is not looked at. The quantity, where given, replaces the
    /// stored one; the delivered amount, where given, is added to the stored
    /// one. That no row has this identifier is no error.
    pub fn update_item(&mut self, item_id: u128, updated_item: UpdateItemRequest) -> (result:
        Result<(), DbError>)
        requires
            old(self).store.wf(),
        ensures
            final(self).store.wf(),
            final(self).store.tables == old(self).store.tables,
            final(self).store.menu == old(self).store.menu,
            final(self).store.clock == old(self).store.clock,
            any_overflows(old(self).store.items@, seq![single_change(item_id, updated_item)])
                ==> result == Err::<(), DbError>(
                DbError::Store(Operation::UpdatingItem, StoreFailure::OutOfRange),
            ) && final(self).store.items == old(self).store.items,
            !any_overflows(old(self).store.items@, seq![single_change(item_id, updated_item)])
                ==> result is Ok && final(self).store.items@ == rows_after(
                old(self).store.items@,
                seq![single_change(item_id, updated_item)],
            ),
    {
        let mut batch: Vec<UpdateItemRequest> = Vec::new();
        batch.push(
            UpdateItemRequest {
                id: item_id,
                quantity: updated_item.quantity,
                delivered_quantity: updated_item.delivered_quantity,
            },
        );
        assert(batch@ =~= seq![single_change(item_id, updated_item)]);
        match self.store.update_items(&batch) {
            Ok(_) => Ok(()),
            Err(failure) => Err(DbError::Store(Operation::UpdatingItem, failure)),
        }
    }

    /// Applies a batch of changes in one statement and reports how many rows
    /// it touched, which is fewer than the batch is long where some
    /// identifiers name no row.
    ///
    /// An empty batch touches nothing and reports zero. A batch of more than
    /// a hundred changes fails with `LimitExceeded` before anything is sent.
    /// Otherwise, for each row that the batch names, the quantity is replaced
    /// by the one given and the delivered quantity is raised by the amount
    /// given; rows that the batch does not name stay as they are. The batch
    /// applies as a whole or, where a delivered quantity would leave the range
    /// of its column, not at all.
    pub fn update_items(&mut self, items: Vec<UpdateItemRequest>) -> (result: Result<
        usize,
        DbError,
    >)
        requires
            old(self).store.wf(),
        ensures
            final(self).store.wf(),
            final(self).store.tables == old(self).store.tables,
            final(self).store.menu == old(self).store.menu,
            final(self).store.clock == old(self).store.clock,
            items@.len() == 0 ==> result == Ok::<usize, DbError>(0) && final(self).store.items
                == old(self).store.items,
            items@.len() > MAX_ITEMS_LIMIT ==> result == Err::<usize, DbError>(
                DbError::LimitExceeded,
            ) && final(self).store.items == old(self).store.items,
            0 < items@.len() <= MAX_ITEMS_LIMIT && any_overflows(old(self).store.items@, items@)
                ==> result == Err::<usize, DbError>(
                DbError::Store(Operation::UpdatingItems, StoreFailure::OutOfRange),
            ) && final(self).store.items == old(self).store.items,
            0 < items@.len() <= MAX_ITEMS_LIMIT && !any_overflows(old(self).store.items@, items@)
                ==> result == Ok::<usize, DbError>(
                affected(old(self).store.items@, items@, old(self).store.items@.len()) as usize,
            ) && final(self).store.items@ == rows_after(old(self).store.items@, items@),
            result is Ok ==> result->Ok_0 <= items@.len() && result->Ok_0 <= old(
                self,
            ).store.items@.len(),
    {
        if items.len() == 0 {
            return Ok(0);
        } else if items.len() > MAX_ITEMS_LIMIT {
            return Err(DbError::LimitExceeded);
        }
        let total: usize = self.store.items.len();
        proof {
            law_touched_rows_are_bounded(self.store, items@);
            assert(affected(self.store.items@, items@, self.store.items@.len()) <= total);
        }
        match self.store.update_items(&items) {
            Ok(count) => Ok(count as usize),
            Err(failure) => Err(DbError::Store(Operation::UpdatingItems, failure)),
        }
    }
}

} // verus!
