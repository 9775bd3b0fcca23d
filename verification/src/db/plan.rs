//! What the gateway prepares before it turns to the store, and what it makes
//! of the store's answer.

use vstd::prelude::*;
use crate::db::connection::{NewItemRequest, UpdateItemRequest, MAX_ITEMS_LIMIT};
use crate::db::error::DbError;
use crate::db::ids::{fresh_id, is_random_id};
use crate::db::statement::{
    insert_items_statement, insert_params, insert_text, update_items_statement, update_params,
    update_text, Statement,
};
use crate::models::restaurant_models::{Menu, PartialItem, PartialItemReturn, Price, Table};

verus! {

/// The order line that a request becomes under the identifier `id`: it
/// belongs to the table `tables_id`, and nothing of it is delivered yet.
pub open spec fn spec_new_row(tables_id: u128, request: NewItemRequest, id: u128) -> PartialItem {
    PartialItem {
        id,
        tables_id,
        menu_id: request.menu_id,
        quantity: request.quantity,
        delivered_quantity: 0,
    }
}

/// True when `rows` are the order lines that `requests` become for the table
/// `tables_id`, one for one and in order, each under a random identifier.
pub open spec fn rows_for(
    rows: Seq<PartialItem>,
    tables_id: u128,
    requests: Seq<NewItemRequest>,
) -> bool {
    &&& rows.len() == requests.len()
    &&& forall|k: int|
        0 <= k < rows.len() ==> #[trigger] rows[k] == spec_new_row(
            tables_id,
            requests[k],
            rows[k].id,
        )
    &&& forall|k: int| 0 <= k < rows.len() ==> is_random_id((#[trigger] rows[k]).id)
}

/// True when the identifiers of `rows` differ from one another.
pub open spec fn distinct_ids(rows: Seq<PartialItem>) -> bool {
    forall|j: int, k: int|
        0 <= j < k < rows.len() ==> (#[trigger] rows[j]).id != (#[trigger] rows[k]).id
}

/// Builds the order line that a request becomes under the identifier `id`.
pub fn new_row(tables_id: u128, request: &NewItemRequest, id: u128) -> (row: PartialItem)
    ensures
        row == spec_new_row(tables_id, *request, id),
{
    PartialItem {
        id,
        tables_id,
        menu_id: request.menu_id,
        quantity: request.quantity,
        delivered_quantity: 0,
    }
}

/// Turns a batch of requests into the order lines to insert, each under a
/// newly drawn identifier. A batch over the limit is refused before anything
/// is drawn or built; an empty batch gives no rows.
pub fn prepare_items(tables_id: u128, new_items: &Vec<NewItemRequest>) -> (result: Result<
    Vec<PartialItem>,
    DbError,
>)
    ensures
        new_items@.len() > MAX_ITEMS_LIMIT ==> result == Err::<Vec<PartialItem>, DbError>(
            DbError::LimitExceeded,
        ),
        new_items@.len() <= MAX_ITEMS_LIMIT ==> result is Ok && rows_for(
            result->Ok_0@,
            tables_id,
            new_items@,
        ),
{
    if new_items.len() > MAX_ITEMS_LIMIT {
        return Err(DbError::LimitExceeded);
    }
    let mut rows: Vec<PartialItem> = Vec::new();
    let mut k: usize = 0;
    while k < new_items.len()
        invariant
            k <= new_items@.len(),
            rows_for(rows@, tables_id, new_items@.take(k as int)),
        decreases new_items@.len() - k,
    {
        let id = fresh_id();
        rows.push(new_row(tables_id, &new_items[k], id));
        k += 1;
    }
    assert(new_items@.take(new_items@.len() as int) =~= new_items@);
    Ok(rows)
}

/// Decides what to send to the store to insert `rows`: nothing for an empty
/// batch, which succeeds without a round trip, and otherwise the one statement
/// that inserts them all. A batch over the limit is refused.
pub fn plan_insert(rows: &Vec<PartialItem>) -> (result: Result<Option<Statement>, DbError>)
    ensures
        rows@.len() > MAX_ITEMS_LIMIT ==> result == Err::<Option<Statement>, DbError>(
            DbError::LimitExceeded,
        ),
        rows@.len() == 0 ==> result == Ok::<Option<Statement>, DbError>(None),
        0 < rows@.len() <= MAX_ITEMS_LIMIT ==> {
            &&& result is Ok
            &&& result->Ok_0 is Some
            &&& result->Ok_0->Some_0@.text == insert_text(rows@.len())
            &&& result->Ok_0->Some_0@.params == insert_params(rows@)
        },
{
    if rows.len() > MAX_ITEMS_LIMIT {
        Err(DbError::LimitExceeded)
    } else if rows.len() == 0 {
        Ok(None)
    } else {
        Ok(Some(insert_items_statement(rows)))
    }
}

/// Decides what to send to the store to apply `batch`: nothing for an empty
/// batch, which touches no row, and otherwise the one statement that applies
/// all changes. A batch over the limit is refused.
pub fn plan_update(batch: &Vec<UpdateItemRequest>) -> (result: Result<Option<Statement>, DbError>)
    ensures
        batch@.len() > MAX_ITEMS_LIMIT ==> result == Err::<Option<Statement>, DbError>(
            DbError::LimitExceeded,
        ),
        batch@.len() == 0 ==> result == Ok::<Option<Statement>, DbError>(None),
        0 < batch@.len() <= MAX_ITEMS_LIMIT ==> {
            &&& result is Ok
            &&& result->Ok_0 is Some
            &&& result->Ok_0->Some_0@.text == update_text(batch@.len())
            &&& result->Ok_0->Some_0@.params == update_params(batch@)
        },
{
    if batch.len() > MAX_ITEMS_LIMIT {
        Err(DbError::LimitExceeded)
    } else if batch.len() == 0 {
        Ok(None)
    } else {
        Ok(Some(update_items_statement(batch)))
    }
}

/// Makes the table called `name` under a newly drawn identifier.
pub fn new_table(name: String) -> (table: Table)
    ensures
        table.name == name,
        is_random_id(table.id),
{
    Table { id: fresh_id(), name }
}

/// Makes the menu entry described under a newly drawn identifier.
pub fn new_menu_entry(name: String, price: Price, prep_time: i32) -> (entry: Menu)
    ensures
        entry.name == name,
        entry.price == price,
        entry.prep_time == prep_time,
        is_random_id(entry.id),
{
    Menu { id: fresh_id(), name, price, prep_time }
}

/// What a read of one row amounts to: the row, or `NotFound` where the store
/// returned none.
pub fn found_or_missing(row: Option<PartialItemReturn>) -> (result: Result<
    PartialItemReturn,
    DbError,
>)
    ensures
        result == match row {
            Some(row) => Ok::<PartialItemReturn, DbError>(row),
            None => Err::<PartialItemReturn, DbError>(DbError::NotFound),
        },
{
    match row {
        Some(row) => Ok(row),
        None => Err(DbError::NotFound),
    }
}

/// What a delete amounts to: whether the store removed a row.
pub fn was_deleted(rows_affected: u64) -> (deleted: bool)
    ensures
        deleted == (rows_affected > 0),
{
    rows_affected > 0
}

} // verus!
