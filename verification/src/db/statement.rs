//! Statements: their text and the values bound to their placeholders.
//!
//! Placeholders are numbered across a whole statement, so the value bound at
//! position `k` (counted from zero) is the one that `$k+1` refers to. The
//! parameter lists built here follow that numbering exactly.

use vstd::prelude::*;
use crate::db::connection::UpdateItemRequest;
use crate::db::text::{placeholder, push_placeholder};
use crate::models::restaurant_models::{PartialItem, Price};

verus! {

/// A value bound to one placeholder.
#[derive(Debug)]
pub enum Param {
    Uuid(u128),
    OptUuid(Option<u128>),
    Int(i32),
    OptInt(Option<i32>),
    BigInt(i64),
    Text(String),
    Numeric(Price),
}

/// What a bound value is, with text as a sequence of characters.
pub enum ParamValue {
    Uuid(u128),
    OptUuid(Option<u128>),
    Int(i32),
    OptInt(Option<i32>),
    BigInt(i64),
    Text(Seq<char>),
    Numeric(Price),
}

impl View for Param {
    type V = ParamValue;

    open spec fn view(&self) -> ParamValue {
        match *self {
            Param::Uuid(id) => ParamValue::Uuid(id),
            Param::OptUuid(id) => ParamValue::OptUuid(id),
            Param::Int(n) => ParamValue::Int(n),
            Param::OptInt(n) => ParamValue::OptInt(n),
            Param::BigInt(n) => ParamValue::BigInt(n),
            Param::Text(s) => ParamValue::Text(s@),
            Param::Numeric(p) => ParamValue::Numeric(p),
        }
    }
}

/// A statement ready to be sent: its text and its bound values, in placeholder
/// order.
#[derive(Debug)]
pub struct Statement {
    pub text: String,
    pub params: Vec<Param>,
}

/// What a statement is: the characters of its text and its bound values.
pub struct StatementView {
    pub text: Seq<char>,
    pub params: Seq<ParamValue>,
}

/// The values of a list of parameters.
pub open spec fn param_values(params: Seq<Param>) -> Seq<ParamValue> {
    Seq::new(params.len(), |k: int| params[k]@)
}

impl View for Statement {
    type V = StatementView;

    open spec fn view(&self) -> StatementView {
        StatementView { text: self.text@, params: param_values(self.params@) }
    }
}

/// The parameter group of the row at index `i` of a multi-row insert.
pub open spec fn insert_group(i: nat) -> Seq<char> {
    "("@ + placeholder(5 * i + 1) + ", "@ + placeholder(5 * i + 2) + ", "@ + placeholder(5 * i + 3)
        + ", "@ + placeholder(5 * i + 4) + ", "@ + placeholder(5 * i + 5) + ")"@
}

/// The parameter groups of the first `n` rows, separated by commas.
pub open spec fn insert_groups(n: nat) -> Seq<char>
    decreases n,
{
    if n == 0 {
        Seq::empty()
    } else if n == 1 {
        insert_group(0)
    } else {
        insert_groups((n - 1) as nat) + ", "@ + insert_group((n - 1) as nat)
    }
}

/// The text of the statement that inserts `n` order lines.
pub open spec fn insert_text(n: nat) -> Seq<char> {
    "INSERT INTO items (id, tables_id, menu_id, quantity, delivered_quantity) VALUES "@
        + insert_groups(n)
}

/// The value bound at position `k` when `rows` are inserted: five values per
/// row, in column order, the delivered quantity being the constant zero.
pub open spec fn insert_param(rows: Seq<PartialItem>, k: int) -> ParamValue {
    let row = rows[k / 5];
    if k % 5 == 0 {
        ParamValue::Uuid(row.id)
    } else if k % 5 == 1 {
        ParamValue::Uuid(row.tables_id)
    } else if k % 5 == 2 {
        ParamValue::Uuid(row.menu_id)
    } else if k % 5 == 3 {
        ParamValue::Int(row.quantity)
    } else {
        ParamValue::Int(0)
    }
}

/// The values bound when `rows` are inserted.
pub open spec fn insert_params(rows: Seq<PartialItem>) -> Seq<ParamValue> {
    Seq::new(5 * rows.len(), |k: int| insert_param(rows, k))
}

fn push_insert_group(out: &mut String, i: usize)
    requires
        5 * i + 5 <= usize::MAX,
    ensures
        final(out)@ == old(out)@ + insert_group(i as nat),
{
    out.append("(");
    push_placeholder(out, 5 * i + 1);
    out.append(", ");
    push_placeholder(out, 5 * i + 2);
    out.append(", ");
    push_placeholder(out, 5 * i + 3);
    out.append(", ");
    push_placeholder(out, 5 * i + 4);
    out.append(", ");
    push_placeholder(out, 5 * i + 5);
    out.append(")");
    assert(final(out)@ =~= old(out)@ + insert_group(i as nat));
}

/// Builds the text of the statement that inserts `n` order lines. Row `i`
/// takes the placeholders numbered `5i + 1` to `5i + 5`.
pub fn insert_items_text(n: usize) -> (text: String)
    requires
        5 * n <= usize::MAX,
    ensures
        text@ == insert_text(n as nat),
{
    let mut text = String::from_str(
        "INSERT INTO items (id, tables_id, menu_id, quantity, delivered_quantity) VALUES ",
    );
    let ghost head = text@;
    let mut i: usize = 0;
    while i < n
        invariant
            i <= n,
            5 * n <= usize::MAX,
            text@ == head + insert_groups(i as nat),
        decreases n - i,
    {
        if i > 0 {
            text.append(", ");
        }
        push_insert_group(&mut text, i);
        assert(text@ =~= head + insert_groups((i + 1) as nat));
        i += 1;
    }
    text
}

/// Builds the values bound when `rows` are inserted, in placeholder order.
pub fn insert_items_params(rows: &Vec<PartialItem>) -> (params: Vec<Param>)
    ensures
        param_values(params@) == insert_params(rows@),
{
    let mut params: Vec<Param> = Vec::new();
    let mut i: usize = 0;
    while i < rows.len()
        invariant
            i <= rows.len(),
            params@.len() == 5 * i,
            forall|k: int| 0 <= k < 5 * i ==> (#[trigger] params@[k])@ == insert_param(rows@, k),
        decreases rows.len() - i,
    {
        let row = &rows[i];
        params.push(Param::Uuid(row.id));
        params.push(Param::Uuid(row.tables_id));
        params.push(Param::Uuid(row.menu_id));
        params.push(Param::Int(row.quantity));
        params.push(Param::Int(0));
        i += 1;
    }
    assert(param_values(params@) =~= insert_params(rows@));
    params
}

/// Builds the statement that inserts `rows` in one round trip.
pub fn insert_items_statement(rows: &Vec<PartialItem>) -> (statement: Statement)
    requires
        5 * rows@.len() <= usize::MAX,
    ensures
        statement@.text == insert_text(rows@.len()),
        statement@.params == insert_params(rows@),
{
    Statement { text: insert_items_text(rows.len()), params: insert_items_params(rows) }
}

/// The branch that sets the quantity of the row named by the change at index
/// `i`: the bound quantity where one is given, the stored one otherwise.
pub open spec fn quantity_case(i: nat) -> Seq<char> {
    "WHEN id = "@ + placeholder(3 * i + 1) + " THEN COALESCE("@ + placeholder(3 * i + 2)
        + ", quantity) "@
}

/// The branch that raises the delivered quantity of the row named by the
/// change at index `i` by the bound amount, by nothing where none is given.
pub open spec fn delivered_case(i: nat) -> Seq<char> {
    "WHEN id = "@ + placeholder(3 * i + 1) + " THEN delivered_quantity + COALESCE("@
        + placeholder(3 * i + 3) + ", 0) "@
}

/// The quantity branches of the first `n` changes.
pub open spec fn quantity_cases(n: nat) -> Seq<char>
    decreases n,
{
    if n == 0 {
        Seq::empty()
    } else {
        quantity_cases((n - 1) as nat) + quantity_case((n - 1) as nat)
    }
}

/// The delivered-quantity branches of the first `n` changes.
pub open spec fn delivered_cases(n: nat) -> Seq<char>
    decreases n,
{
    if n == 0 {
        Seq::empty()
    } else {
        delivered_cases((n - 1) as nat) + delivered_case((n - 1) as nat)
    }
}

/// The placeholders of the identifiers of the first `n` changes, separated by
/// commas.
pub open spec fn id_list(n: nat) -> Seq<char>
    decreases n,
{
    if n == 0 {
        Seq::empty()
    } else if n == 1 {
        placeholder(1)
    } else {
        id_list((n - 1) as nat) + ", "@ + placeholder((3 * (n - 1) + 1) as nat)
    }
}

/// The text of the statement that applies `n` changes at once. Each of the two
/// columns gets one `CASE` over all identifiers; the first branch that names a
/// row decides for it, and the `WHERE` clause keeps every other row out.
pub open spec fn update_text(n: nat) -> Seq<char> {
    "UPDATE items SET quantity = CASE "@ + quantity_cases(n)
        + "ELSE quantity END, delivered_quantity = CASE "@ + delivered_cases(n)
        + "ELSE delivered_quantity END WHERE id IN ("@ + id_list(n) + ")"@
}

/// The value bound at position `k` when `batch` is applied: three values per
/// change, its identifier, its quantity and its delivered amount.
pub open spec fn update_param(batch: Seq<UpdateItemRequest>, k: int) -> ParamValue {
    let change = batch[k / 3];
    if k % 3 == 0 {
        ParamValue::Uuid(change.id)
    } else if k % 3 == 1 {
        ParamValue::OptInt(change.quantity)
    } else {
        ParamValue::OptInt(change.delivered_quantity)
    }
}

/// The values bound when `batch` is applied.
pub open spec fn update_params(batch: Seq<UpdateItemRequest>) -> Seq<ParamValue> {
    Seq::new(3 * batch.len(), |k: int| update_param(batch, k))
}

fn push_quantity_case(out: &mut String, i: usize)
    requires
        3 * i + 3 <= usize::MAX,
    ensures
        final(out)@ == old(out)@ + quantity_case(i as nat),
{
    out.append("WHEN id = ");
    push_placeholder(out, 3 * i + 1);
    out.append(" THEN COALESCE(");
    push_placeholder(out, 3 * i + 2);
    out.append(", quantity) ");
    assert(final(out)@ =~= old(out)@ + quantity_case(i as nat));
}

fn push_delivered_case(out: &mut String, i: usize)
    requires
        3 * i + 3 <= usize::MAX,
    ensures
        final(out)@ == old(out)@ + delivered_case(i as nat),
{
    out.append("WHEN id = ");
    push_placeholder(out, 3 * i + 1);
    out.append(" THEN delivered_quantity + COALESCE(");
    push_placeholder(out, 3 * i + 3);
    out.append(", 0) ");
    assert(final(out)@ =~= old(out)@ + delivered_case(i as nat));
}

/// Builds the text of the statement that applies `n` changes at once. Change
/// `i` takes the placeholders numbered `3i + 1` to `3i + 3`; its identifier is
/// referred to once in each `CASE` and once in the `WHERE` clause.
pub fn update_items_text(n: usize) -> (text: String)
    requires
        3 * n <= usize::MAX,
    ensures
        text@ == update_text(n as nat),
{
    let mut text = String::from_str("UPDATE items SET quantity = CASE ");
    let ghost head = text@;
    let mut i: usize = 0;
    while i < n
        invariant
            i <= n,
            3 * n <= usize::MAX,
            text@ == head + quantity_cases(i as nat),
        decreases n - i,
    {
        push_quantity_case(&mut text, i);
        assert(text@ =~= head + quantity_cases((i + 1) as nat));
        i += 1;
    }
    text.append("ELSE quantity END, delivered_quantity = CASE ");
    let ghost middle = text@;
    i = 0;
    while i < n
        invariant
            i <= n,
            3 * n <= usize::MAX,
            text@ == middle + delivered_cases(i as nat),
        decreases n - i,
    {
        push_delivered_case(&mut text, i);
        assert(text@ =~= middle + delivered_cases((i + 1) as nat));
        i += 1;
    }
    text.append("ELSE delivered_quantity END WHERE id IN (");
    let ghost before_ids = text@;
    i = 0;
    while i < n
        invariant
            i <= n,
            3 * n <= usize::MAX,
            text@ == before_ids + id_list(i as nat),
        decreases n - i,
    {
        if i > 0 {
            text.append(", ");
        }
        push_placeholder(&mut text, 3 * i + 1);
        assert(text@ =~= before_ids + id_list((i + 1) as nat));
        i += 1;
    }
    text.append(")");
    assert(text@ =~= update_text(n as nat));
    text
}

/// Builds the values bound when `batch` is applied, in placeholder order.
pub fn update_items_params(batch: &Vec<UpdateItemRequest>) -> (params: Vec<Param>)
    ensures
        param_values(params@) == update_params(batch@),
{
    let mut params: Vec<Param> = Vec::new();
    let mut i: usize = 0;
    while i < batch.len()
        invariant
            i <= batch.len(),
            params@.len() == 3 * i,
            forall|k: int| 0 <= k < 3 * i ==> (#[trigger] params@[k])@ == update_param(batch@, k),
        decreases batch.len() - i,
    {
        let change = &batch[i];
        params.push(Param::Uuid(change.id));
        params.push(Param::OptInt(change.quantity));
        params.push(Param::OptInt(change.delivered_quantity));
        i += 1;
    }
    assert(param_values(params@) =~= update_params(batch@));
    params
}

/// Builds the statement that applies `batch` in one round trip.
pub fn update_items_statement(batch: &Vec<UpdateItemRequest>) -> (statement: Statement)
    requires
        3 * batch@.len() <= usize::MAX,
    ensures
        statement@.text == update_text(batch@.len()),
        statement@.params == update_params(batch@),
{
    Statement { text: update_items_text(batch.len()), params: update_items_params(batch) }
}

/// The number `n` as a 64-bit parameter. A number beyond the range of the
/// parameter is bound as the largest value the parameter can hold, which no
/// store has rows enough to reach.
pub open spec fn spec_bigint(n: usize) -> i64 {
    if n <= i64::MAX {
        n as i64
    } else {
        i64::MAX
    }
}

/// The number `n` as a 64-bit parameter.
pub fn bigint(n: usize) -> (value: i64)
    ensures
        value == spec_bigint(n),
{
    if n as u64 <= i64::MAX as u64 {
        n as i64
    } else {
        i64::MAX
    }
}

/// The text of the listing of what is still to be brought out to a table.
pub open spec fn select_remaining_text() -> Seq<char> {
    "SELECT items.id, items.tables_id, items.menu_id, items.quantity, items.delivered_quantity, items.created_at, Menu.prep_time AS prep_time FROM items LEFT JOIN Menu ON menu_id = Menu.id WHERE tables_id = $1 AND ($2::uuid IS NULL OR menu_id = $2) AND quantity > delivered_quantity ORDER BY items.created_at LIMIT $3 OFFSET $4"@
}

/// The text of the read of one order line of a table.
pub open spec fn select_item_text() -> Seq<char> {
    "SELECT items.id, items.tables_id, items.menu_id, items.quantity, items.delivered_quantity, items.created_at, Menu.prep_time AS prep_time FROM items LEFT JOIN Menu ON menu_id = Menu.id WHERE items.tables_id = $1 AND items.id = $2"@
}

/// Builds the listing of what is still to be brought out to the table
/// `tables_id`: its rows whose quantity exceeds their delivered quantity, of
/// the menu entry `menu_id` alone where one is given, oldest first, `offset`
/// rows skipped and at most `limit` returned.
pub fn select_remaining_statement(
    tables_id: u128,
    menu_id: Option<u128>,
    limit: usize,
    offset: usize,
) -> (statement: Statement)
    ensures
        statement@.text == select_remaining_text(),
        statement@.params == seq![
            ParamValue::Uuid(tables_id),
            ParamValue::OptUuid(menu_id),
            ParamValue::BigInt(spec_bigint(limit)),
            ParamValue::BigInt(spec_bigint(offset)),
        ],
{
    let mut params: Vec<Param> = Vec::new();
    params.push(Param::Uuid(tables_id));
    params.push(Param::OptUuid(menu_id));
    params.push(Param::BigInt(bigint(limit)));
    params.push(Param::BigInt(bigint(offset)));
    let statement = Statement {
        text: String::from_str(
            "SELECT items.id, items.tables_id, items.menu_id, items.quantity, items.delivered_quantity, items.created_at, Menu.prep_time AS prep_time FROM items LEFT JOIN Menu ON menu_id = Menu.id WHERE tables_id = $1 AND ($2::uuid IS NULL OR menu_id = $2) AND quantity > delivered_quantity ORDER BY items.created_at LIMIT $3 OFFSET $4",
        ),
        params,
    };
    assert(statement@.params =~= seq![
        ParamValue::Uuid(tables_id),
        ParamValue::OptUuid(menu_id),
        ParamValue::BigInt(spec_bigint(limit)),
        ParamValue::BigInt(spec_bigint(offset)),
    ]);
    statement
}

/// Builds the read of the order line `item_id` of the table `tables_id`.
pub fn select_item_statement(tables_id: u128, item_id: u128) -> (statement: Statement)
    ensures
        statement@.text == select_item_text(),
        statement@.params == seq![ParamValue::Uuid(tables_id), ParamValue::Uuid(item_id)],
{
    let mut params: Vec<Param> = Vec::new();
    params.push(Param::Uuid(tables_id));
    params.push(Param::Uuid(item_id));
    let statement = Statement {
        text: String::from_str(
            "SELECT items.id, items.tables_id, items.menu_id, items.quantity, items.delivered_quantity, items.created_at, Menu.prep_time AS prep_time FROM items LEFT JOIN Menu ON menu_id = Menu.id WHERE items.tables_id = $1 AND items.id = $2",
        ),
        params,
    };
    assert(statement@.params =~= seq![ParamValue::Uuid(tables_id), ParamValue::Uuid(item_id)]);
    statement
}

/// Builds the change of the one order line `item_id`: its quantity becomes
/// `quantity` where one is given, and its delivered quantity is raised by
/// `delivered` where one is given.
pub fn update_item_statement(item_id: u128, quantity: Option<i32>, delivered: Option<i32>) -> (statement:
    Statement)
    ensures
        statement@.text
            == "UPDATE items SET quantity = COALESCE($1, quantity), delivered_quantity = COALESCE(delivered_quantity + $2, delivered_quantity) WHERE id = $3"@,
        statement@.params == seq![
            ParamValue::OptInt(quantity),
            ParamValue::OptInt(delivered),
            ParamValue::Uuid(item_id),
        ],
{
    let mut params: Vec<Param> = Vec::new();
    params.push(Param::OptInt(quantity));
    params.push(Param::OptInt(delivered));
    params.push(Param::Uuid(item_id));
    let statement = Statement {
        text: String::from_str(
            "UPDATE items SET quantity = COALESCE($1, quantity), delivered_quantity = COALESCE(delivered_quantity + $2, delivered_quantity) WHERE id = $3",
        ),
        params,
    };
    assert(statement@.params =~= seq![
        ParamValue::OptInt(quantity),
        ParamValue::OptInt(delivered),
        ParamValue::Uuid(item_id),
    ]);
    statement
}

/// Builds the removal of the order line `item_id` of the table `tables_id`.
pub fn delete_item_statement(tables_id: u128, item_id: u128) -> (statement: Statement)
    ensures
        statement@.text == "DELETE FROM items WHERE tables_id = $1 AND id = $2"@,
        statement@.params == seq![ParamValue::Uuid(tables_id), ParamValue::Uuid(item_id)],
{
    let mut params: Vec<Param> = Vec::new();
    params.push(Param::Uuid(tables_id));
    params.push(Param::Uuid(item_id));
    let statement = Statement {
        text: String::from_str("DELETE FROM items WHERE tables_id = $1 AND id = $2"),
        params,
    };
    assert(statement@.params =~= seq![ParamValue::Uuid(tables_id), ParamValue::Uuid(item_id)]);
    statement
}

/// Builds the listing of all tables.
pub fn select_tables_statement() -> (statement: Statement)
    ensures
        statement@.text == "SELECT id, name FROM tables"@,
        statement@.params == Seq::<ParamValue>::empty(),
{
    let statement = Statement {
        text: String::from_str("SELECT id, name FROM tables"),
        params: Vec::new(),
    };
    assert(statement@.params =~= Seq::<ParamValue>::empty());
    statement
}

/// Builds the insertion of the table `id` called `name`.
pub fn insert_table_statement(id: u128, name: String) -> (statement: Statement)
    ensures
        statement@.text == "INSERT INTO tables (id, name) VALUES ($1, $2)"@,
        statement@.params == seq![ParamValue::Uuid(id), ParamValue::Text(name@)],
{
    let mut params: Vec<Param> = Vec::new();
    params.push(Param::Uuid(id));
    params.push(Param::Text(name));
    let statement = Statement {
        text: String::from_str("INSERT INTO tables (id, name) VALUES ($1, $2)"),
        params,
    };
    assert(statement@.params =~= seq![ParamValue::Uuid(id), ParamValue::Text(name@)]);
    statement
}

/// Builds the listing of the whole menu.
pub fn select_menu_statement() -> (statement: Statement)
    ensures
        statement@.text == "SELECT id, name, price, prep_time FROM Menu"@,
        statement@.params == Seq::<ParamValue>::empty(),
{
    let statement = Statement {
        text: String::from_str("SELECT id, name, price, prep_time FROM Menu"),
        params: Vec::new(),
    };
    assert(statement@.params =~= Seq::<ParamValue>::empty());
    statement
}

/// Builds the insertion of the menu entry `id`.
pub fn insert_menu_statement(id: u128, name: String, price: Price, prep_time: i32) -> (statement:
    Statement)
    ensures
        statement@.text == "INSERT INTO Menu (id, name, price, prep_time) VALUES ($1, $2, $3, $4)"@,
        statement@.params == seq![
            ParamValue::Uuid(id),
            ParamValue::Text(name@),
            ParamValue::Numeric(price),
            ParamValue::Int(prep_time),
        ],
{
    let mut params: Vec<Param> = Vec::new();
    params.push(Param::Uuid(id));
    params.push(Param::Text(name));
    params.push(Param::Numeric(price));
    params.push(Param::Int(prep_time));
    let statement = Statement {
        text: String::from_str(
            "INSERT INTO Menu (id, name, price, prep_time) VALUES ($1, $2, $3, $4)",
        ),
        params,
    };
    assert(statement@.params =~= seq![
        ParamValue::Uuid(id),
        ParamValue::Text(name@),
        ParamValue::Numeric(price),
        ParamValue::Int(prep_time),
    ]);
    statement
}

/// The five values bound for the row at index `i` of an insert stand at the
/// positions `5i` to `5i + 4`, in column order: the row's identifier, its
/// table, its menu entry, its quantity, and zero for what is delivered.
pub proof fn law_insert_binding_order(rows: Seq<PartialItem>, i: int)
    requires
        0 <= i < rows.len(),
    ensures
        insert_params(rows).len() == 5 * rows.len(),
        insert_params(rows)[5 * i] == ParamValue::Uuid(rows[i].id),
        insert_params(rows)[5 * i + 1] == ParamValue::Uuid(rows[i].tables_id),
        insert_params(rows)[5 * i + 2] == ParamValue::Uuid(rows[i].menu_id),
        insert_params(rows)[5 * i + 3] == ParamValue::Int(rows[i].quantity),
        insert_params(rows)[5 * i + 4] == ParamValue::Int(0),
{
}

/// The three values bound for the change at index `i` of a batch stand at the
/// positions `3i` to `3i + 2`: its identifier, its quantity and its delivered
/// amount.
pub proof fn law_update_binding_order(batch: Seq<UpdateItemRequest>, i: int)
    requires
        0 <= i < batch.len(),
    ensures
        update_params(batch).len() == 3 * batch.len(),
        update_params(batch)[3 * i] == ParamValue::Uuid(batch[i].id),
        update_params(batch)[3 * i + 1] == ParamValue::OptInt(batch[i].quantity),
        update_params(batch)[3 * i + 2] == ParamValue::OptInt(batch[i].delivered_quantity),
{
}

} // verus!
