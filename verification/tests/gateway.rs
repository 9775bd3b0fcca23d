use rust_decimal::Decimal;
use table_orders::db::connection::{
    Database, NewItemRequest, UpdateItemRequest, MAX_ITEMS_LIMIT,
};
use table_orders::db::error::{DbError, Operation};
use table_orders::db::store::StoreFailure;
use table_orders::models::restaurant_models::{PartialItem, Price};
use table_orders::models::route_models::{FilterParams, Pagination};

fn price(amount: Decimal) -> Price {
    Price { mantissa: amount.mantissa(), scale: amount.scale() }
}

fn setup() -> (Database, u128, u128) {
    let mut db = Database::new();
    let table = db.add_table("Test Table".to_string()).expect("Failed to add table");
    let menu = db
        .add_menu("Test Dish".to_string(), price(Decimal::new(1500, 2)), 15)
        .expect("Failed to add menu item");
    (db, table.id, menu.id)
}

fn everything() -> (Pagination, FilterParams) {
    (Pagination { limit: Some(1000), offset: Some(0) }, FilterParams { menu_id: None })
}

#[test]
fn test_create_and_get_item() {
    let mut db = Database::new();

    let new_table = db.add_table("Test Table".to_string()).expect("Failed to add table");
    let tables_id = new_table.id;

    let new_menu = db
        .add_menu("Test Dish".to_string(), price(Decimal::new(1500, 2)), 15)
        .expect("Failed to add menu item");
    let menu_id = new_menu.id;

    let new_item = NewItemRequest { quantity: 2, menu_id };
    db.create_item(tables_id, new_item).unwrap();

    let pagination = Pagination { limit: Some(10), offset: Some(0) };
    let filters = FilterParams { menu_id: None };

    let items = db.get_all_remaining_items_from_table(tables_id, pagination, filters).unwrap();

    assert_eq!(items.len(), 1);
    assert_eq!(items[0].tables_id, tables_id);
    assert_eq!(items[0].menu_id, menu_id);
    assert_eq!(items[0].quantity, 2);
    assert_eq!(items[0].delivered_quantity, 0);
}

#[test]
fn test_update_and_delete_item() {
    let mut db = Database::new();

    let new_table = db.add_table("Test Table".to_string()).expect("Failed to add table");
    let tables_id = new_table.id;

    let new_menu = db
        .add_menu("Test Dish".to_string(), price(Decimal::new(1500, 2)), 15)
        .expect("Failed to add menu item");
    let menu_id = new_menu.id;

    let new_item = NewItemRequest { quantity: 2, menu_id };
    db.create_item(tables_id, new_item).unwrap();

    let pagination = Pagination { limit: Some(10), offset: Some(0) };
    let filters = FilterParams { menu_id: None };
    let items = db.get_all_remaining_items_from_table(tables_id, pagination, filters).unwrap();
    assert!(!items.is_empty(), "No items found for the table");
    let item_id = items[0].id;

    let update_request =
        UpdateItemRequest { id: item_id, quantity: Some(3), delivered_quantity: Some(1) };
    db.update_item(item_id, update_request).unwrap();

    let updated_item = db.get_item(tables_id, item_id).unwrap();
    assert_eq!(updated_item.quantity, 3);
    assert_eq!(updated_item.delivered_quantity, 1);

    let deleted = db.delete_item(tables_id, item_id).unwrap();
    assert!(deleted);

    let result = db.get_item(tables_id, item_id);
    assert!(result.is_err());
}

#[test]
fn order_line_from_creation_to_removal() {
    let (mut db, table, menu) = setup();
    let (all, unfiltered) = everything();

    let created = db.create_items(table, vec![NewItemRequest { quantity: 2, menu_id: menu }]).unwrap();
    assert_eq!(created.len(), 1);
    assert_eq!(created[0].delivered_quantity, 0);
    assert_eq!(created[0].quantity, 2);
    assert_eq!(created[0].tables_id, table);
    assert_eq!(created[0].menu_id, menu);
    let id = created[0].id;

    let delta = UpdateItemRequest { id, quantity: None, delivered_quantity: Some(1) };
    assert_eq!(db.update_items(vec![delta]), Ok(1));
    let read = db.get_item(table, id).unwrap();
    assert_eq!(read.quantity, 2);
    assert_eq!(read.delivered_quantity, 1);
    assert_eq!(read.prep_time, 15);
    let remaining = db.get_all_remaining_items_from_table(table, all, unfiltered).unwrap();
    assert_eq!(remaining.len(), 1);
    assert_eq!(remaining[0], read);

    assert_eq!(db.update_items(vec![delta]), Ok(1));
    assert_eq!(db.get_item(table, id).unwrap().delivered_quantity, 2);
    let remaining = db.get_all_remaining_items_from_table(table, all, unfiltered).unwrap();
    assert_eq!(remaining.len(), 0);

    assert_eq!(db.delete_item(table, id), Ok(true));
    assert_eq!(db.delete_item(table, id), Ok(false));
    assert_eq!(db.get_item(table, id), Err(DbError::NotFound));
}

#[test]
fn creating_a_full_batch_persists_every_row_once() {
    let (mut db, table, menu) = setup();
    let requests: Vec<NewItemRequest> =
        (0..MAX_ITEMS_LIMIT).map(|k| NewItemRequest { quantity: k as i32 + 1, menu_id: menu }).collect();
    let created = db.create_items(table, requests).unwrap();
    assert_eq!(created.len(), 100);
    assert_eq!(db.store.items.len(), 100);
    for (k, row) in created.iter().enumerate() {
        assert_eq!(row.quantity, k as i32 + 1);
        assert_eq!(row.delivered_quantity, 0);
        assert_eq!(row.tables_id, table);
        assert_eq!(row.menu_id, menu);
        assert_eq!(db.store.items[k].id, row.id);
        assert_eq!(db.store.items[k].quantity, row.quantity);
        assert_eq!(db.store.items[k].delivered_quantity, 0);
        for other in &created[..k] {
            assert_ne!(other.id, row.id);
        }
    }
}

#[test]
fn creating_over_the_limit_persists_nothing() {
    let (mut db, table, menu) = setup();
    let requests: Vec<NewItemRequest> =
        (0..101).map(|_| NewItemRequest { quantity: 1, menu_id: menu }).collect();
    assert_eq!(db.create_items(table, requests), Err(DbError::LimitExceeded));
    assert!(db.store.items.is_empty());
}

#[test]
fn creating_nothing_succeeds_with_no_rows() {
    let (mut db, table, _) = setup();
    assert_eq!(db.create_items(table, vec![]), Ok(vec![]));
    assert!(db.store.items.is_empty());
}

#[test]
fn creating_for_an_unknown_menu_entry_fails_whole() {
    let (mut db, table, menu) = setup();
    let requests = vec![
        NewItemRequest { quantity: 1, menu_id: menu },
        NewItemRequest { quantity: 1, menu_id: menu ^ 1 },
    ];
    assert_eq!(
        db.create_items(table, requests),
        Err(DbError::Store(Operation::CreatingItems, StoreFailure::UnknownMenu))
    );
    assert!(db.store.items.is_empty());
}

#[test]
fn creating_for_an_unknown_table_fails() {
    let (mut db, table, menu) = setup();
    assert_eq!(
        db.create_item(table ^ 1, NewItemRequest { quantity: 1, menu_id: menu }),
        Err(DbError::Store(Operation::CreatingItem, StoreFailure::UnknownTable))
    );
    assert!(db.store.items.is_empty());
}

#[test]
fn inserting_a_taken_identifier_fails_whole() {
    let (mut db, table, menu) = setup();
    let created = db.create_items(table, vec![NewItemRequest { quantity: 1, menu_id: menu }]).unwrap();
    let mut again = created.clone();
    again[0].quantity = 9;
    assert_eq!(
        db.insert_rows(again),
        Err(DbError::Store(Operation::CreatingItems, StoreFailure::DuplicateId))
    );
    assert_eq!(db.store.items.len(), 1);
    assert_eq!(db.store.items[0].quantity, 1);
}

#[test]
fn updating_leaves_unnamed_rows_alone() {
    let (mut db, table, menu) = setup();
    let created = db
        .create_items(
            table,
            vec![
                NewItemRequest { quantity: 4, menu_id: menu },
                NewItemRequest { quantity: 6, menu_id: menu },
                NewItemRequest { quantity: 8, menu_id: menu },
            ],
        )
        .unwrap();
    let before = db.store.items.clone();
    let change =
        UpdateItemRequest { id: created[1].id, quantity: Some(5), delivered_quantity: Some(2) };
    assert_eq!(db.update_items(vec![change]), Ok(1));
    assert_eq!(db.store.items[0], before[0]);
    assert_eq!(db.store.items[2], before[2]);
    assert_eq!(db.store.items[1].quantity, 5);
    assert_eq!(db.store.items[1].delivered_quantity, 2);
    assert_eq!(db.store.items[1].created_at, before[1].created_at);
}

#[test]
fn quantity_is_replaced_and_delivered_is_added() {
    let (mut db, table, menu) = setup();
    let id = db.create_items(table, vec![NewItemRequest { quantity: 40, menu_id: menu }]).unwrap()[0].id;
    let first = UpdateItemRequest { id, quantity: None, delivered_quantity: Some(1) };
    assert_eq!(db.update_items(vec![first]), Ok(1));
    let second = UpdateItemRequest { id, quantity: Some(5), delivered_quantity: Some(2) };
    assert_eq!(db.update_items(vec![second]), Ok(1));
    let row = db.get_item(table, id).unwrap();
    assert_eq!(row.quantity, 5);
    assert_eq!(row.delivered_quantity, 3);
    let neither = UpdateItemRequest { id, quantity: None, delivered_quantity: None };
    assert_eq!(db.update_items(vec![neither]), Ok(1));
    let row = db.get_item(table, id).unwrap();
    assert_eq!(row.quantity, 5);
    assert_eq!(row.delivered_quantity, 3);
}

#[test]
fn updating_counts_only_rows_that_exist() {
    let (mut db, table, menu) = setup();
    let id = db.create_items(table, vec![NewItemRequest { quantity: 3, menu_id: menu }]).unwrap()[0].id;
    let batch = vec![
        UpdateItemRequest { id, quantity: Some(7), delivered_quantity: None },
        UpdateItemRequest { id: id ^ 1, quantity: Some(9), delivered_quantity: None },
    ];
    assert_eq!(db.update_items(batch), Ok(1));
    assert_eq!(db.update_items(vec![UpdateItemRequest { id: id ^ 1, quantity: Some(9), delivered_quantity: None }]), Ok(0));
    assert_eq!(db.get_item(table, id).unwrap().quantity, 7);
}

#[test]
fn first_change_naming_a_row_decides() {
    let (mut db, table, menu) = setup();
    let id = db.create_items(table, vec![NewItemRequest { quantity: 3, menu_id: menu }]).unwrap()[0].id;
    let batch = vec![
        UpdateItemRequest { id, quantity: Some(7), delivered_quantity: Some(1) },
        UpdateItemRequest { id, quantity: Some(9), delivered_quantity: Some(2) },
    ];
    assert_eq!(db.update_items(batch), Ok(1));
    let row = db.get_item(table, id).unwrap();
    assert_eq!(row.quantity, 7);
    assert_eq!(row.delivered_quantity, 1);
}

#[test]
fn updating_nothing_reports_zero() {
    let (mut db, table, menu) = setup();
    db.create_item(table, NewItemRequest { quantity: 3, menu_id: menu }).unwrap();
    let before = db.store.items.clone();
    assert_eq!(db.update_items(vec![]), Ok(0));
    assert_eq!(db.store.items, before);
}

#[test]
fn updating_over_the_limit_changes_nothing() {
    let (mut db, table, menu) = setup();
    let id = db.create_items(table, vec![NewItemRequest { quantity: 3, menu_id: menu }]).unwrap()[0].id;
    let batch: Vec<UpdateItemRequest> = (0..101)
        .map(|_| UpdateItemRequest { id, quantity: Some(1), delivered_quantity: None })
        .collect();
    assert_eq!(db.update_items(batch), Err(DbError::LimitExceeded));
    assert_eq!(db.get_item(table, id).unwrap().quantity, 3);
    let batch: Vec<UpdateItemRequest> = (0..100)
        .map(|_| UpdateItemRequest { id, quantity: Some(1), delivered_quantity: None })
        .collect();
    assert_eq!(db.update_items(batch), Ok(1));
}

#[test]
fn delivered_quantity_out_of_range_fails_whole() {
    let (mut db, table, menu) = setup();
    let created = db
        .create_items(
            table,
            vec![
                NewItemRequest { quantity: 1, menu_id: menu },
                NewItemRequest { quantity: 2, menu_id: menu },
            ],
        )
        .unwrap();
    let fill = UpdateItemRequest { id: created[1].id, quantity: None, delivered_quantity: Some(i32::MAX) };
    assert_eq!(db.update_items(vec![fill]), Ok(1));
    let batch = vec![
        UpdateItemRequest { id: created[0].id, quantity: Some(50), delivered_quantity: None },
        UpdateItemRequest { id: created[1].id, quantity: None, delivered_quantity: Some(1) },
    ];
    assert_eq!(
        db.update_items(batch),
        Err(DbError::Store(Operation::UpdatingItems, StoreFailure::OutOfRange))
    );
    assert_eq!(db.get_item(table, created[0].id).unwrap().quantity, 1);
    assert_eq!(db.get_item(table, created[1].id).unwrap().delivered_quantity, i32::MAX);
    assert_eq!(
        db.update_item(created[1].id, UpdateItemRequest { id: 0, quantity: None, delivered_quantity: Some(1) }),
        Err(DbError::Store(Operation::UpdatingItem, StoreFailure::OutOfRange))
    );
}

#[test]
fn single_update_goes_by_the_identifier_given() {
    let (mut db, table, menu) = setup();
    let created = db
        .create_items(
            table,
            vec![
                NewItemRequest { quantity: 1, menu_id: menu },
                NewItemRequest { quantity: 2, menu_id: menu },
            ],
        )
        .unwrap();
    let change = UpdateItemRequest { id: created[1].id, quantity: Some(30), delivered_quantity: None };
    assert_eq!(db.update_item(created[0].id, change), Ok(()));
    assert_eq!(db.get_item(table, created[0].id).unwrap().quantity, 30);
    assert_eq!(db.get_item(table, created[1].id).unwrap().quantity, 2);
    assert_eq!(db.update_item(created[0].id ^ 1, change), Ok(()));
}

#[test]
fn listing_shows_only_what_is_still_to_deliver() {
    let (mut db, table, menu) = setup();
    let other_menu = db.add_menu("Soup".to_string(), price(Decimal::new(450, 2)), 7).unwrap().id;
    let other_table = db.add_table("Window".to_string()).unwrap().id;
    let created = db
        .create_items(
            table,
            vec![
                NewItemRequest { quantity: 2, menu_id: menu },
                NewItemRequest { quantity: 1, menu_id: other_menu },
                NewItemRequest { quantity: 3, menu_id: menu },
                NewItemRequest { quantity: 0, menu_id: menu },
            ],
        )
        .unwrap();
    db.create_item(other_table, NewItemRequest { quantity: 5, menu_id: menu }).unwrap();
    let done = UpdateItemRequest { id: created[2].id, quantity: None, delivered_quantity: Some(3) };
    assert_eq!(db.update_items(vec![done]), Ok(1));

    let (all, unfiltered) = everything();
    let rows = db.get_all_remaining_items_from_table(table, all, unfiltered).unwrap();
    assert_eq!(rows.len(), 2);
    assert_eq!(rows[0].id, created[0].id);
    assert_eq!(rows[0].prep_time, 15);
    assert_eq!(rows[1].id, created[1].id);
    assert_eq!(rows[1].prep_time, 7);
    for row in &rows {
        assert!(row.quantity > row.delivered_quantity);
        assert_eq!(row.tables_id, table);
    }

    let only_soup = FilterParams { menu_id: Some(other_menu) };
    let rows = db.get_all_remaining_items_from_table(table, all, only_soup).unwrap();
    assert_eq!(rows.len(), 1);
    assert_eq!(rows[0].menu_id, other_menu);

    let rows = db.get_all_remaining_items_from_table(other_table, all, unfiltered).unwrap();
    assert_eq!(rows.len(), 1);
    assert_eq!(rows[0].quantity, 5);
}

#[test]
fn listing_defaults_to_ten_rows_from_the_start() {
    let (mut db, table, menu) = setup();
    let requests: Vec<NewItemRequest> =
        (0..25).map(|k| NewItemRequest { quantity: k + 1, menu_id: menu }).collect();
    let created = db.create_items(table, requests).unwrap();
    let unfiltered = FilterParams { menu_id: None };

    let rows = db
        .get_all_remaining_items_from_table(table, Pagination { limit: None, offset: None }, unfiltered)
        .unwrap();
    assert_eq!(rows.len(), 10);
    assert_eq!(rows[0].id, created[0].id);
    assert_eq!(rows[9].id, created[9].id);

    let rows = db
        .get_all_remaining_items_from_table(table, Pagination { limit: Some(4), offset: Some(22) }, unfiltered)
        .unwrap();
    assert_eq!(rows.len(), 3);
    assert_eq!(rows[0].id, created[22].id);

    let rows = db
        .get_all_remaining_items_from_table(table, Pagination { limit: None, offset: Some(30) }, unfiltered)
        .unwrap();
    assert!(rows.is_empty());

    let rows = db
        .get_all_remaining_items_from_table(
            table,
            Pagination { limit: Some(usize::MAX), offset: Some(1) },
            unfiltered,
        )
        .unwrap();
    assert_eq!(rows.len(), 24);

    let rows = db
        .get_all_remaining_items_from_table(table, Pagination { limit: Some(0), offset: None }, unfiltered)
        .unwrap();
    assert!(rows.is_empty());
}

#[test]
fn reading_needs_both_identifiers_to_match() {
    let (mut db, table, menu) = setup();
    let other_table = db.add_table("Window".to_string()).unwrap().id;
    let id = db.create_items(table, vec![NewItemRequest { quantity: 3, menu_id: menu }]).unwrap()[0].id;
    assert!(db.get_item(table, id).is_ok());
    assert_eq!(db.get_item(other_table, id), Err(DbError::NotFound));
    assert_eq!(db.delete_item(other_table, id), Ok(false));
    assert_eq!(db.store.items.len(), 1);
}

#[test]
fn rows_carry_the_time_of_their_creation() {
    let (mut db, table, menu) = setup();
    db.store.advance_clock(1_700_000_000_000_000);
    db.create_item(table, NewItemRequest { quantity: 3, menu_id: menu }).unwrap();
    db.store.advance_clock(5);
    db.create_item(table, NewItemRequest { quantity: 4, menu_id: menu }).unwrap();
    db.store.advance_clock(1_700_000_000_000_009);
    db.create_item(table, NewItemRequest { quantity: 5, menu_id: menu }).unwrap();
    let (all, unfiltered) = everything();
    let rows = db.get_all_remaining_items_from_table(table, all, unfiltered).unwrap();
    assert_eq!(rows[0].created_at, 1_700_000_000_000_000);
    assert_eq!(rows[1].created_at, 1_700_000_000_000_000);
    assert_eq!(rows[2].created_at, 1_700_000_000_000_009);
}

#[test]
fn tables_and_menu_are_listed_as_added() {
    let (mut db, table, menu) = setup();
    let second = db.add_table("Window".to_string()).unwrap();
    let tables = db.get_tables().unwrap();
    assert_eq!(tables.len(), 2);
    assert_eq!(tables[0].id, table);
    assert_eq!(tables[0].name, "Test Table");
    assert_eq!(tables[1].id, second.id);
    assert_eq!(tables[1].name, "Window");
    let entries = db.get_menu().unwrap();
    assert_eq!(entries.len(), 1);
    assert_eq!(entries[0].id, menu);
    assert_eq!(entries[0].name, "Test Dish");
    assert_eq!(entries[0].price, Price { mantissa: 1500, scale: 2 });
    assert_eq!(entries[0].prep_time, 15);
}

#[test]
fn drawn_identifiers_are_random_version_four() {
    let mut db = Database::new();
    let mut seen: Vec<u128> = Vec::new();
    for _ in 0..50 {
        let id = db.add_table("t".to_string()).unwrap().id;
        assert_eq!(id & 0x0000_0000_0000_f000_c000_0000_0000_0000, 0x0000_0000_0000_4000_8000_0000_0000_0000);
        assert!(!seen.contains(&id));
        seen.push(id);
    }
}

#[test]
fn error_messages_name_the_operation() {
    assert_eq!(DbError::LimitExceeded.message(), "The number of items exceeds the limit of 100");
    assert_eq!(
        DbError::Store(Operation::CreatingItems, StoreFailure::DuplicateId).message(),
        "creating items: a row with this id exists already"
    );
    assert_eq!(
        DbError::Store(Operation::UpdatingItems, StoreFailure::OutOfRange).message(),
        "updating items: integer out of range"
    );
    assert_eq!(
        DbError::Store(Operation::CreatingItem, StoreFailure::UnknownMenu).message(),
        "creating item: the menu entry does not exist"
    );
    assert_eq!(
        DbError::Store(Operation::CreatingItem, StoreFailure::UnknownTable).message(),
        "creating item: the table does not exist"
    );
    assert_eq!(
        DbError::NotFound.message(),
        "no rows returned by a query that expected to return at least one row"
    );
}

#[test]
fn a_row_is_inserted_as_given() {
    let (mut db, table, menu) = setup();
    db.store.advance_clock(44);
    let row = PartialItem { id: 77, tables_id: table, menu_id: menu, quantity: 6, delivered_quantity: 0 };
    assert_eq!(db.insert_row(row), Ok(()));
    assert_eq!(db.store.items.len(), 1);
    let read = db.get_item(table, 77).unwrap();
    assert_eq!((read.quantity, read.delivered_quantity, read.created_at, read.prep_time), (6, 0, 44, 15));
    assert_eq!(
        db.insert_row(row),
        Err(DbError::Store(Operation::CreatingItem, StoreFailure::DuplicateId))
    );
    assert_eq!(
        db.insert_rows(vec![
            PartialItem { id: 78, ..row },
            PartialItem { id: 78, ..row },
        ]),
        Err(DbError::Store(Operation::CreatingItems, StoreFailure::DuplicateId))
    );
    assert_eq!(db.store.items.len(), 1);
    let rows = vec![PartialItem { id: 79, ..row }, PartialItem { id: 80, ..row }];
    assert_eq!(db.insert_rows(rows.clone()), Ok(rows));
    assert_eq!(db.store.items.len(), 3);
    assert_eq!(db.store.items[1].id, 79);
    assert_eq!(db.store.items[2].id, 80);
}

#[test]
fn adding_a_taken_table_or_menu_identifier_fails() {
    let (mut db, table, menu) = setup();
    assert_eq!(db.store.insert_table(table, "again".to_string()), Err(StoreFailure::DuplicateId));
    assert_eq!(
        db.store.insert_menu(menu, "again".to_string(), Price { mantissa: 1, scale: 0 }, 1),
        Err(StoreFailure::DuplicateId)
    );
    assert_eq!(db.get_tables().unwrap().len(), 1);
    assert_eq!(db.get_menu().unwrap().len(), 1);
    assert_eq!(
        DbError::Store(Operation::AddingTable, StoreFailure::DuplicateId).message(),
        "adding table: a row with this id exists already"
    );
    assert_eq!(
        DbError::Store(Operation::AddingMenu, StoreFailure::DuplicateId).message(),
        "adding menu: a row with this id exists already"
    );
}

#[test]
fn a_new_row_starts_with_nothing_delivered() {
    let (mut db, table, menu) = setup();
    let row = PartialItem { id: 77, tables_id: table, menu_id: menu, quantity: 6, delivered_quantity: 4 };
    assert_eq!(db.insert_row(row), Ok(()));
    assert_eq!(db.get_item(table, 77).unwrap().delivered_quantity, 0);
}
