use table_orders::db::connection::{NewItemRequest, UpdateItemRequest};
use table_orders::db::error::{with_context, DbError, Operation};
use table_orders::db::plan::{plan_insert, plan_update, prepare_items};
use table_orders::db::statement::{
    bigint, delete_item_statement, insert_items_statement, insert_items_text,
    insert_menu_statement, insert_table_statement, select_item_statement, select_menu_statement,
    select_remaining_statement, select_tables_statement, update_items_statement,
    update_item_statement, update_items_text, Param,
};
use table_orders::db::text::{push_decimal, push_placeholder};
use table_orders::models::restaurant_models::Price;
use table_orders::models::restaurant_models::PartialItem;

fn row(id: u128, quantity: i32) -> PartialItem {
    PartialItem { id, tables_id: 500, menu_id: 600 + id, quantity, delivered_quantity: 0 }
}

#[test]
fn insert_text_for_one_row() {
    let statement = insert_items_statement(&vec![row(1, 2)]);
    assert_eq!(
        statement.text,
        "INSERT INTO items (id, tables_id, menu_id, quantity, delivered_quantity) VALUES ($1, $2, $3, $4, $5)"
    );
    assert_eq!(statement.params.len(), 5);
}

#[test]
fn insert_text_numbers_placeholders_across_rows() {
    let statement = insert_items_statement(&vec![row(1, 2), row(2, 3), row(3, 4)]);
    assert_eq!(
        statement.text,
        "INSERT INTO items (id, tables_id, menu_id, quantity, delivered_quantity) VALUES ($1, $2, $3, $4, $5), ($6, $7, $8, $9, $10), ($11, $12, $13, $14, $15)"
    );
    assert_eq!(statement.params.len(), 15);
    assert!(matches!(statement.params[5], Param::Uuid(2)));
    assert!(matches!(statement.params[6], Param::Uuid(500)));
    assert!(matches!(statement.params[7], Param::Uuid(602)));
    assert!(matches!(statement.params[8], Param::Int(3)));
    assert!(matches!(statement.params[9], Param::Int(0)));
}

#[test]
fn update_text_for_two_changes() {
    let batch = vec![
        UpdateItemRequest { id: 11, quantity: Some(5), delivered_quantity: None },
        UpdateItemRequest { id: 12, quantity: None, delivered_quantity: Some(2) },
    ];
    let statement = update_items_statement(&batch);
    assert_eq!(
        statement.text,
        "UPDATE items SET quantity = CASE WHEN id = $1 THEN COALESCE($2, quantity) WHEN id = $4 THEN COALESCE($5, quantity) ELSE quantity END, delivered_quantity = CASE WHEN id = $1 THEN delivered_quantity + COALESCE($3, 0) WHEN id = $4 THEN delivered_quantity + COALESCE($6, 0) ELSE delivered_quantity END WHERE id IN ($1, $4)"
    );
    assert_eq!(statement.params.len(), 6);
    assert!(matches!(statement.params[0], Param::Uuid(11)));
    assert!(matches!(statement.params[1], Param::OptInt(Some(5))));
    assert!(matches!(statement.params[2], Param::OptInt(None)));
    assert!(matches!(statement.params[3], Param::Uuid(12)));
    assert!(matches!(statement.params[4], Param::OptInt(None)));
    assert!(matches!(statement.params[5], Param::OptInt(Some(2))));
}

#[test]
fn insert_text_of_no_rows_is_the_bare_head() {
    assert_eq!(
        insert_items_text(0),
        "INSERT INTO items (id, tables_id, menu_id, quantity, delivered_quantity) VALUES "
    );
}

#[test]
fn insert_text_of_a_full_batch_ends_at_five_hundred() {
    let text = insert_items_text(100);
    assert!(text.ends_with(", ($496, $497, $498, $499, $500)"));
    assert_eq!(text.matches('(').count(), 101);
}

#[test]
fn update_text_for_one_change() {
    assert_eq!(
        update_items_text(1),
        "UPDATE items SET quantity = CASE WHEN id = $1 THEN COALESCE($2, quantity) ELSE quantity END, delivered_quantity = CASE WHEN id = $1 THEN delivered_quantity + COALESCE($3, 0) ELSE delivered_quantity END WHERE id IN ($1)"
    );
}

#[test]
fn update_text_of_a_full_batch_ends_at_two_ninety_eight() {
    let text = update_items_text(100);
    assert!(text.ends_with(", $295, $298)"));
    assert!(text.contains("WHEN id = $298 THEN COALESCE($299, quantity) ELSE quantity END"));
    assert!(text.contains(
        "WHEN id = $298 THEN delivered_quantity + COALESCE($300, 0) ELSE delivered_quantity END"
    ));
}

#[test]
fn decimal_numerals() {
    let mut out = String::from("n=");
    push_decimal(&mut out, 0);
    out.push(' ');
    push_decimal(&mut out, 7);
    out.push(' ');
    push_decimal(&mut out, 10);
    out.push(' ');
    push_decimal(&mut out, 409);
    out.push(' ');
    push_decimal(&mut out, usize::MAX);
    assert_eq!(out, format!("n=0 7 10 409 {}", usize::MAX));
}

#[test]
fn placeholders_are_a_dollar_and_the_number() {
    let mut out = String::new();
    push_placeholder(&mut out, 12);
    assert_eq!(out, "$12");
}

#[test]
fn plans_follow_the_batch_rules() {
    assert!(matches!(plan_insert(&vec![]), Ok(None)));
    assert!(matches!(plan_update(&vec![]), Ok(None)));
    let rows: Vec<_> = (0..101).map(|k| row(k, 1)).collect();
    assert!(matches!(plan_insert(&rows), Err(DbError::LimitExceeded)));
    let statement = plan_insert(&rows[..100].to_vec()).unwrap().unwrap();
    assert_eq!(statement.params.len(), 500);
    assert_eq!(statement.text, insert_items_text(100));
    let batch: Vec<_> = (0..101)
        .map(|k| UpdateItemRequest { id: k, quantity: None, delivered_quantity: Some(1) })
        .collect();
    assert!(matches!(plan_update(&batch), Err(DbError::LimitExceeded)));
    let statement = plan_update(&batch[..100].to_vec()).unwrap().unwrap();
    assert_eq!(statement.params.len(), 300);
    assert_eq!(statement.text, update_items_text(100));
}

#[test]
fn prepared_rows_echo_their_requests() {
    let requests = vec![
        NewItemRequest { quantity: 2, menu_id: 70 },
        NewItemRequest { quantity: 9, menu_id: 71 },
    ];
    let rows = prepare_items(5, &requests).unwrap();
    assert_eq!(rows.len(), 2);
    assert_eq!((rows[0].tables_id, rows[0].menu_id, rows[0].quantity, rows[0].delivered_quantity), (5, 70, 2, 0));
    assert_eq!((rows[1].tables_id, rows[1].menu_id, rows[1].quantity, rows[1].delivered_quantity), (5, 71, 9, 0));
    assert_ne!(rows[0].id, rows[1].id);
    let too_many: Vec<_> = (0..101).map(|_| NewItemRequest { quantity: 1, menu_id: 70 }).collect();
    assert_eq!(prepare_items(5, &too_many), Err(DbError::LimitExceeded));
    assert_eq!(prepare_items(5, &vec![]), Ok(vec![]));
}

#[test]
fn listing_statement_binds_table_filter_limit_and_offset() {
    let statement = select_remaining_statement(9, Some(4), 10, 0);
    assert_eq!(
        statement.text,
        "SELECT items.id, items.tables_id, items.menu_id, items.quantity, items.delivered_quantity, items.created_at, Menu.prep_time AS prep_time FROM items LEFT JOIN Menu ON menu_id = Menu.id WHERE tables_id = $1 AND ($2::uuid IS NULL OR menu_id = $2) AND quantity > delivered_quantity ORDER BY items.created_at LIMIT $3 OFFSET $4"
    );
    assert_eq!(statement.params.len(), 4);
    assert!(matches!(statement.params[0], Param::Uuid(9)));
    assert!(matches!(statement.params[1], Param::OptUuid(Some(4))));
    assert!(matches!(statement.params[2], Param::BigInt(10)));
    assert!(matches!(statement.params[3], Param::BigInt(0)));
    let statement = select_remaining_statement(9, None, usize::MAX, 3);
    assert!(matches!(statement.params[1], Param::OptUuid(None)));
    assert!(matches!(statement.params[2], Param::BigInt(i64::MAX)));
    assert!(matches!(statement.params[3], Param::BigInt(3)));
}

#[test]
fn large_numbers_are_bound_as_the_largest_parameter() {
    assert_eq!(bigint(0), 0);
    assert_eq!(bigint(i64::MAX as usize), i64::MAX);
    assert_eq!(bigint(i64::MAX as usize + 1), i64::MAX);
    assert_eq!(bigint(usize::MAX), i64::MAX);
}

#[test]
fn single_row_statements() {
    let statement = select_item_statement(1, 2);
    assert_eq!(
        statement.text,
        "SELECT items.id, items.tables_id, items.menu_id, items.quantity, items.delivered_quantity, items.created_at, Menu.prep_time AS prep_time FROM items LEFT JOIN Menu ON menu_id = Menu.id WHERE items.tables_id = $1 AND items.id = $2"
    );
    assert!(matches!(statement.params[..], [Param::Uuid(1), Param::Uuid(2)]));

    let statement = update_item_statement(7, Some(3), None);
    assert_eq!(
        statement.text,
        "UPDATE items SET quantity = COALESCE($1, quantity), delivered_quantity = COALESCE(delivered_quantity + $2, delivered_quantity) WHERE id = $3"
    );
    assert!(matches!(
        statement.params[..],
        [Param::OptInt(Some(3)), Param::OptInt(None), Param::Uuid(7)]
    ));

    let statement = delete_item_statement(1, 2);
    assert_eq!(statement.text, "DELETE FROM items WHERE tables_id = $1 AND id = $2");
    assert!(matches!(statement.params[..], [Param::Uuid(1), Param::Uuid(2)]));
}

#[test]
fn table_and_menu_statements() {
    let statement = select_tables_statement();
    assert_eq!(statement.text, "SELECT id, name FROM tables");
    assert!(statement.params.is_empty());

    let statement = insert_table_statement(8, "Window".to_string());
    assert_eq!(statement.text, "INSERT INTO tables (id, name) VALUES ($1, $2)");
    assert_eq!(statement.params.len(), 2);
    assert!(matches!(statement.params[0], Param::Uuid(8)));
    assert!(matches!(&statement.params[1], Param::Text(name) if name == "Window"));

    let statement = select_menu_statement();
    assert_eq!(statement.text, "SELECT id, name, price, prep_time FROM Menu");
    assert!(statement.params.is_empty());

    let price = Price { mantissa: 1500, scale: 2 };
    let statement = insert_menu_statement(8, "Soup".to_string(), price, 15);
    assert_eq!(
        statement.text,
        "INSERT INTO Menu (id, name, price, prep_time) VALUES ($1, $2, $3, $4)"
    );
    assert_eq!(statement.params.len(), 4);
    assert!(matches!(statement.params[0], Param::Uuid(8)));
    assert!(matches!(&statement.params[1], Param::Text(name) if name == "Soup"));
    assert!(matches!(statement.params[2], Param::Numeric(p) if p == price));
    assert!(matches!(statement.params[3], Param::Int(15)));
}

#[test]
fn store_errors_are_tagged_with_the_operation() {
    assert_eq!(with_context(Operation::CreatingItems, "connection reset"), "creating items: connection reset");
    assert_eq!(with_context(Operation::UpdatingItems, "deadlock"), "updating items: deadlock");
}
