//! Reading order lines, joined with the menu, and removing one.

use vstd::prelude::*;
use crate::db::store::{has_menu, Store, StoredItem};
use crate::models::restaurant_models::{Menu, PartialItemReturn};

verus! {

/// The position of the entry with the identifier `id` in `menu`.
pub open spec fn menu_index(menu: Seq<Menu>, id: u128) -> int {
    choose|i: int| 0 <= i < menu.len() && (#[trigger] menu[i]).id == id
}

/// The order line `row` joined with the preparation time of its menu entry.
pub open spec fn joined(menu: Seq<Menu>, row: StoredItem) -> PartialItemReturn {
    PartialItemReturn {
        id: row.id,
        tables_id: row.tables_id,
        menu_id: row.menu_id,
        quantity: row.quantity,
        delivered_quantity: row.delivered_quantity,
        created_at: row.created_at,
        prep_time: menu[menu_index(menu, row.menu_id)].prep_time,
    }
}

/// Each of `rows` joined with the preparation time of its menu entry.
pub open spec fn joined_rows(menu: Seq<Menu>, rows: Seq<StoredItem>) -> Seq<PartialItemReturn> {
    Seq::new(rows.len(), |k: int| joined(menu, rows[k]))
}

/// The test that picks the rows of the table `tables_id` of which part is
/// still to be brought out, of the menu entry `menu_id` alone where one is
/// given.
pub open spec fn is_remaining_for(tables_id: u128, menu_id: Option<u128>) -> spec_fn(
    StoredItem,
) -> bool {
    |row: StoredItem|
        row.tables_id == tables_id && (menu_id is None || menu_id == Some(row.menu_id))
            && row.quantity > row.delivered_quantity
}

/// The part of `rows` that is left after `offset` rows are skipped and at most
/// `limit` rows are taken.
pub open spec fn window<T>(rows: Seq<T>, limit: nat, offset: nat) -> Seq<T> {
    let start = if offset < rows.len() {
        offset
    } else {
        rows.len()
    };
    let end = if start + limit < rows.len() {
        start + limit
    } else {
        rows.len()
    };
    rows.subrange(start as int, end as int)
}

/// True when `items` hold a row with the identifier `item_id` that belongs to
/// the table `tables_id`.
pub open spec fn holds_item(items: Seq<StoredItem>, tables_id: u128, item_id: u128) -> bool {
    exists|k: int|
        0 <= k < items.len() && (#[trigger] items[k]).id == item_id && items[k].tables_id
            == tables_id
}

/// The position in `items` of the row with the identifier `item_id` that
/// belongs to the table `tables_id`.
pub open spec fn item_index(items: Seq<StoredItem>, tables_id: u128, item_id: u128) -> int {
    choose|k: int|
        0 <= k < items.len() && (#[trigger] items[k]).id == item_id && items[k].tables_id
            == tables_id
}

impl Store {
    /// The preparation time of the menu entry `menu_id`.
    pub fn prep_time_of(&self, menu_id: u128) -> (prep_time: i32)
        requires
            self.wf(),
            has_menu(self.menu@, menu_id),
        ensures
            prep_time == self.menu@[menu_index(self.menu@, menu_id)].prep_time,
    {
        let mut i: usize = 0;
        while i < self.menu.len()
            invariant
                i <= self.menu@.len(),
                self.wf(),
                has_menu(self.menu@, menu_id),
                forall|j: int| 0 <= j < i ==> (#[trigger] self.menu@[j]).id != menu_id,
            decreases self.menu@.len() - i,
        {
            if self.menu[i].id == menu_id {
                return self.menu[i].prep_time;
            }
            i += 1;
        }
        0
    }

    /// The order line `row` of this store joined with the preparation time of
    /// its menu entry.
    pub fn join(&self, row: &StoredItem) -> (view: PartialItemReturn)
        requires
            self.wf(),
            has_menu(self.menu@, row.menu_id),
        ensures
            view == joined(self.menu@, *row),
    {
        PartialItemReturn {
            id: row.id,
            tables_id: row.tables_id,
            menu_id: row.menu_id,
            quantity: row.quantity,
            delivered_quantity: row.delivered_quantity,
            created_at: row.created_at,
            prep_time: self.prep_time_of(row.menu_id),
        }
    }

    /// The rows that a listing of what is still to be brought out to the table
    /// `tables_id` returns: the rows of that table whose quantity exceeds their
    /// delivered quantity, of the menu entry `menu_id` alone where one is
    /// given, in the order of their creation, `offset` of them skipped and at
    /// most `limit` taken.
    pub open spec fn remaining(
        &self,
        tables_id: u128,
        menu_id: Option<u128>,
        limit: nat,
        offset: nat,
    ) -> Seq<PartialItemReturn> {
        joined_rows(
            self.menu@,
            window(self.items@.filter(is_remaining_for(tables_id, menu_id)), limit, offset),
        )
    }

    /// Lists what is still to be brought out to the table `tables_id`.
    pub fn select_remaining(
        &self,
        tables_id: u128,
        menu_id: Option<u128>,
        limit: usize,
        offset: usize,
    ) -> (rows: Vec<PartialItemReturn>)
        requires
            self.wf(),
        ensures
            rows@ == self.remaining(tables_id, menu_id, limit as nat, offset as nat),
    {
        let ghost test = is_remaining_for(tables_id, menu_id);
        let mut matched: Vec<StoredItem> = Vec::new();
        let mut i: usize = 0;
        while i < self.items.len()
            invariant
                i <= self.items@.len(),
                test == is_remaining_for(tables_id, menu_id),
                matched@ == self.items@.take(i as int).filter(test),
                forall|j: int|
                    0 <= j < matched@.len() ==> has_menu(
                        self.menu@,
                        (#[trigger] matched@[j]).menu_id,
                    ),
                self.wf(),
            decreases self.items@.len() - i,
        {
            let row = self.items[i];
            let wanted = match menu_id {
                Some(menu_id) => row.menu_id == menu_id,
                None => true,
            };
            proof {
                reveal(Seq::filter);
                assert(self.items@.take(i + 1).drop_last() =~= self.items@.take(i as int));
                assert(self.items@.take(i + 1).last() == row);
            }
            if row.tables_id == tables_id && wanted && row.quantity > row.delivered_quantity {
                matched.push(row);
            }
            i += 1;
        }
        assert(self.items@.take(self.items@.len() as int) =~= self.items@);
        let start: usize = if offset < matched.len() {
            offset
        } else {
            matched.len()
        };
        let end: usize = if limit < matched.len() - start {
            start + limit
        } else {
            matched.len()
        };
        let mut rows: Vec<PartialItemReturn> = Vec::new();
        let mut k: usize = start;
        while k < end
            invariant
                start <= k <= end <= matched@.len(),
                self.wf(),
                forall|j: int|
                    0 <= j < matched@.len() ==> has_menu(
                        self.menu@,
                        (#[trigger] matched@[j]).menu_id,
                    ),
                rows@ == joined_rows(self.menu@, matched@.subrange(start as int, k as int)),
            decreases end - k,
        {
            let view = self.join(&matched[k]);
            rows.push(view);
            assert(rows@ =~= joined_rows(self.menu@, matched@.subrange(start as int, k + 1)));
            k += 1;
        }
        rows
    }

    /// The position of the order line `item_id` of the table `tables_id`, if
    /// the store holds it.
    pub fn position_of(&self, tables_id: u128, item_id: u128) -> (found: Option<usize>)
        requires
            self.wf(),
        ensures
            holds_item(self.items@, tables_id, item_id) ==> found is Some && found->0 as int
                == item_index(self.items@, tables_id, item_id) && found->0 < self.items@.len(),
            !holds_item(self.items@, tables_id, item_id) ==> found is None,
    {
        let mut i: usize = 0;
        while i < self.items.len()
            invariant
                i <= self.items@.len(),
                self.wf(),
                forall|j: int|
                    0 <= j < i ==> !((#[trigger] self.items@[j]).id == item_id
                        && self.items@[j].tables_id == tables_id),
            decreases self.items@.len() - i,
        {
            if self.items[i].id == item_id && self.items[i].tables_id == tables_id {
                return Some(i);
            }
            i += 1;
        }
        None
    }

    /// Reads the order line `item_id` of the table `tables_id`, joined with the
    /// preparation time of its menu entry, if the store holds it.
    pub fn select_item(&self, tables_id: u128, item_id: u128) -> (row: Option<PartialItemReturn>)
        requires
            self.wf(),
        ensures
            holds_item(self.items@, tables_id, item_id) ==> row == Some(
                joined(self.menu@, self.items@[item_index(self.items@, tables_id, item_id)]),
            ),
            !holds_item(self.items@, tables_id, item_id) ==> row is None,
    {
        match self.position_of(tables_id, item_id) {
            Some(k) => Some(self.join(&self.items[k])),
            None => None,
        }
    }

    /// Removes the order line `item_id` of the table `tables_id`, if the store
    /// holds it, and reports how many rows went.
    pub fn delete_item(&mut self, tables_id: u128, item_id: u128) -> (removed: u64)
        requires
            old(self).wf(),
        ensures
            final(self).wf(),
            final(self).tables == old(self).tables,
            final(self).menu == old(self).menu,
            final(self).clock == old(self).clock,
            holds_item(old(self).items@, tables_id, item_id) ==> removed == 1 && final(self).items@
                == old(self).items@.remove(item_index(old(self).items@, tables_id, item_id)),
            !holds_item(old(self).items@, tables_id, item_id) ==> removed == 0 && final(self).items
                == old(self).items,
    {
        match self.position_of(tables_id, item_id) {
            Some(k) => {
                self.items.remove(k);
                1
            },
            None => 0,
        }
    }
}

} // verus!
