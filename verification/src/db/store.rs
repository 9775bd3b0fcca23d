//! An in-process store of tables, menu entries and order lines.
//!
//! Each operation on it does to the rows what the matching statement does in a
//! relational store: it either applies as a whole or fails and changes nothing.
//! The rules of the batch operations are proved against this store.

use vstd::prelude::*;
use crate::models::restaurant_models::{Menu, Price, Table};

verus! {

/// An order line as the store holds it.
#[derive(Debug, Clone, Copy, PartialEq, Eq, Structural)]
pub struct StoredItem {
    pub id: u128,
    pub tables_id: u128,
    pub menu_id: u128,
    pub quantity: i32,
    pub delivered_quantity: i32,
    pub created_at: i64,
}

/// Why the store refused a statement.
#[derive(Debug, Clone, Copy, PartialEq, Eq, Structural)]
pub enum StoreFailure {
    /// A row with this identifier exists already.
    DuplicateId,
    /// An order line names a table that does not exist.
    UnknownTable,
    /// An order line names a menu entry that does not exist.
    UnknownMenu,
    /// A delivered quantity would leave the range of the column.
    OutOfRange,
}

impl StoreFailure {
    /// What the store says of this failure.
    pub open spec fn spec_text(self) -> Seq<char> {
        match self {
            StoreFailure::DuplicateId => "a row with this id exists already"@,
            StoreFailure::UnknownTable => "the table does not exist"@,
            StoreFailure::UnknownMenu => "the menu entry does not exist"@,
            StoreFailure::OutOfRange => "integer out of range"@,
        }
    }

    /// What the store says of this failure.
    pub fn text(&self) -> (text: &'static str)
        ensures
            text@ == self.spec_text(),
    {
        match self {
            StoreFailure::DuplicateId => "a row with this id exists already",
            StoreFailure::UnknownTable => "the table does not exist",
            StoreFailure::UnknownMenu => "the menu entry does not exist",
            StoreFailure::OutOfRange => "integer out of range",
        }
    }
}

/// The store: its three relations and its clock.
#[derive(Debug)]
pub struct Store {
    pub tables: Vec<Table>,
    pub menu: Vec<Menu>,
    pub items: Vec<StoredItem>,
    pub clock: i64,
}

/// True when some table in `tables` has the identifier `id`.
pub open spec fn has_table(tables: Seq<Table>, id: u128) -> bool {
    exists|i: int| 0 <= i < tables.len() && (#[trigger] tables[i]).id == id
}

/// True when some entry in `menu` has the identifier `id`.
pub open spec fn has_menu(menu: Seq<Menu>, id: u128) -> bool {
    exists|i: int| 0 <= i < menu.len() && (#[trigger] menu[i]).id == id
}

/// True when some order line in `items` has the identifier `id`.
pub open spec fn has_item(items: Seq<StoredItem>, id: u128) -> bool {
    exists|i: int| 0 <= i < items.len() && (#[trigger] items[i]).id == id
}

impl Store {
    /// The invariant of the store: identifiers are unique within each
    /// relation, every order line refers to an existing table and menu entry,
    /// and order lines are kept in the order of their creation, none of them
    /// made after the present.
    pub open spec fn wf(&self) -> bool {
        &&& forall|i: int, j: int|
            0 <= i < j < self.tables@.len() ==> (#[trigger] self.tables@[i]).id != (
            #[trigger] self.tables@[j]).id
        &&& forall|i: int, j: int|
            0 <= i < j < self.menu@.len() ==> (#[trigger] self.menu@[i]).id != (
            #[trigger] self.menu@[j]).id
        &&& forall|i: int, j: int|
            0 <= i < j < self.items@.len() ==> (#[trigger] self.items@[i]).id != (
            #[trigger] self.items@[j]).id
        &&& forall|i: int|
            0 <= i < self.items@.len() ==> has_table(
                self.tables@,
                (#[trigger] self.items@[i]).tables_id,
            )
        &&& forall|i: int|
            0 <= i < self.items@.len() ==> has_menu(self.menu@, (#[trigger] self.items@[i]).menu_id)
        &&& forall|i: int, j: int|
            0 <= i < j < self.items@.len() ==> (#[trigger] self.items@[i]).created_at <= (
            #[trigger] self.items@[j]).created_at
        &&& forall|i: int|
            0 <= i < self.items@.len() ==> (#[trigger] self.items@[i]).created_at <= self.clock
    }

    /// An empty store whose clock stands at zero.
    pub fn new() -> (store: Store)
        ensures
            store.wf(),
            store.tables@.len() == 0,
            store.menu@.len() == 0,
            store.items@.len() == 0,
            store.clock == 0,
    {
        Store { tables: Vec::new(), menu: Vec::new(), items: Vec::new(), clock: 0 }
    }

    /// Moves the clock forward to `now`. The clock never runs backwards: an
    /// earlier time leaves it as it is.
    pub fn advance_clock(&mut self, now: i64)
        requires
            old(self).wf(),
        ensures
            final(self).wf(),
            final(self).clock == (if now > old(self).clock {
                now
            } else {
                old(self).clock
            }),
            final(self).tables == old(self).tables,
            final(self).menu == old(self).menu,
            final(self).items == old(self).items,
    {
        if now > self.clock {
            self.clock = now;
        }
    }

    /// Tells whether a table has the identifier `id`.
    pub fn contains_table(&self, id: u128) -> (found: bool)
        ensures
            found == has_table(self.tables@, id),
    {
        let mut i: usize = 0;
        while i < self.tables.len()
            invariant
                i <= self.tables@.len(),
                forall|j: int| 0 <= j < i ==> (#[trigger] self.tables@[j]).id != id,
            decreases self.tables@.len() - i,
        {
            if self.tables[i].id == id {
                return true;
            }
            i += 1;
        }
        false
    }

    /// Tells whether a menu entry has the identifier `id`.
    pub fn contains_menu(&self, id: u128) -> (found: bool)
        ensures
            found == has_menu(self.menu@, id),
    {
        let mut i: usize = 0;
        while i < self.menu.len()
            invariant
                i <= self.menu@.len(),
                forall|j: int| 0 <= j < i ==> (#[trigger] self.menu@[j]).id != id,
            decreases self.menu@.len() - i,
        {
            if self.menu[i].id == id {
                return true;
            }
            i += 1;
        }
        false
    }

    /// Tells whether an order line has the identifier `id`.
    pub fn contains_item(&self, id: u128) -> (found: bool)
        ensures
            found == has_item(self.items@, id),
    {
        let mut i: usize = 0;
        while i < self.items.len()
            invariant
                i <= self.items@.len(),
                forall|j: int| 0 <= j < i ==> (#[trigger] self.items@[j]).id != id,
            decreases self.items@.len() - i,
        {
            if self.items[i].id == id {
                return true;
            }
            i += 1;
        }
        false
    }

    /// Adds a table. Fails, changing nothing, when the identifier is taken.
    pub fn insert_table(&mut self, id: u128, name: String) -> (result: Result<(), StoreFailure>)
        requires
            old(self).wf(),
        ensures
            final(self).wf(),
            final(self).menu == old(self).menu,
            final(self).items == old(self).items,
            final(self).clock == old(self).clock,
            has_table(old(self).tables@, id) ==> result == Err::<(), StoreFailure>(
                StoreFailure::DuplicateId,
            ) && final(self).tables == old(self).tables,
            !has_table(old(self).tables@, id) ==> result is Ok && final(self).tables@ == old(
                self,
            ).tables@.push((Table { id, name })),
    {
        if self.contains_table(id) {
            return Err(StoreFailure::DuplicateId);
        }
        let ghost before = self.tables@;
        self.tables.push(Table { id, name });
        proof {
            assert forall|i: int| 0 <= i < self.items@.len() implies has_table(
                self.tables@,
                (#[trigger] self.items@[i]).tables_id,
            ) by {
                let k = choose|k: int|
                    0 <= k < before.len() && (#[trigger] before[k]).id == self.items@[i].tables_id;
                assert(self.tables@[k].id == self.items@[i].tables_id);
            }
        }
        Ok(())
    }

    /// Copies of all tables, in the order in which they were added.
    pub fn select_tables(&self) -> (tables: Vec<Table>)
        ensures
            tables@ == self.tables@,
    {
        let mut tables: Vec<Table> = Vec::new();
        let mut i: usize = 0;
        while i < self.tables.len()
            invariant
                i <= self.tables@.len(),
                tables@ == self.tables@.take(i as int),
            decreases self.tables@.len() - i,
        {
            let table = &self.tables[i];
            tables.push(Table { id: table.id, name: table.name.clone() });
            assert(tables@ =~= self.tables@.take(i + 1));
            i += 1;
        }
        assert(self.tables@.take(self.tables@.len() as int) =~= self.tables@);
        tables
    }

    /// Adds a menu entry. Fails, changing nothing, when the identifier is
    /// taken.
    pub fn insert_menu(&mut self, id: u128, name: String, price: Price, prep_time: i32) -> (result:
        Result<(), StoreFailure>)
        requires
            old(self).wf(),
        ensures
            final(self).wf(),
            final(self).tables == old(self).tables,
            final(self).items == old(self).items,
            final(self).clock == old(self).clock,
            has_menu(old(self).menu@, id) ==> result == Err::<(), StoreFailure>(
                StoreFailure::DuplicateId,
            ) && final(self).menu == old(self).menu,
            !has_menu(old(self).menu@, id) ==> result is Ok && final(self).menu@ == old(
                self,
            ).menu@.push((Menu { id, name, price, prep_time })),
    {
        if self.contains_menu(id) {
            return Err(StoreFailure::DuplicateId);
        }
        let ghost before = self.menu@;
        self.menu.push(Menu { id, name, price, prep_time });
        proof {
            assert forall|i: int| 0 <= i < self.items@.len() implies has_menu(
                self.menu@,
                (#[trigger] self.items@[i]).menu_id,
            ) by {
                let k = choose|k: int|
                    0 <= k < before.len() && (#[trigger] before[k]).id == self.items@[i].menu_id;
                assert(self.menu@[k].id == self.items@[i].menu_id);
            }
        }
        Ok(())
    }

    /// Copies of all menu entries, in the order in which they were added.
    pub fn select_menu(&self) -> (menu: Vec<Menu>)
        ensures
            menu@ == self.menu@,
    {
        let mut menu: Vec<Menu> = Vec::new();
        let mut i: usize = 0;
        while i < self.menu.len()
            invariant
                i <= self.menu@.len(),
                menu@ == self.menu@.take(i as int),
            decreases self.menu@.len() - i,
        {
            let entry = &self.menu[i];
            menu.push(
                Menu {
                    id: entry.id,
                    name: entry.name.clone(),
                    price: entry.price,
                    prep_time: entry.prep_time,
                },
            );
            assert(menu@ =~= self.menu@.take(i + 1));
            i += 1;
        }
        assert(self.menu@.take(self.menu@.len() as int) =~= self.menu@);
        menu
    }
}

} // verus!
