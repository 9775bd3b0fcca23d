//! Rows of the persisted schema and their read projections.
//!
//! Identifiers are 128-bit values (the numeric form of a UUID), timestamps are
//! microseconds since the Unix epoch, and money is a scaled integer.

use vstd::prelude::*;

verus! {

/// A fixed-point amount: `mantissa` scaled down by ten to the power `scale`.
#[derive(Debug, Clone, Copy, PartialEq, Eq, Structural)]
pub struct Price {
    pub mantissa: i128,
    pub scale: u32,
}

/// A device that may place orders.
#[derive(Debug)]
pub struct Device {
    pub id: u128,
    pub name: String,
}

/// A table of the restaurant.
#[derive(Debug)]
pub struct Table {
    pub id: u128,
    pub name: String,
}

/// A full order line as persisted, audit columns included. The audit columns
/// are reserved: no operation of this crate fills them.
#[derive(Debug)]
pub struct Items {
    pub id: u128,
    pub tables_id: u128,
    pub menu_id: u128,
    pub quantity: i32,
    pub delivered_quantity: i32,
    pub delivered_at: Option<i64>,
    pub created_at: i64,
    pub created_by: Option<String>,
    pub updated_at: i64,
    pub updated_by: Option<String>,
    pub deleted_at: Option<i64>,
    pub deleted_by: Option<String>,
}

/// The projection of an order line that creation reports back.
#[derive(Debug, Clone, Copy, PartialEq, Eq, Structural)]
pub struct PartialItem {
    pub id: u128,
    pub tables_id: u128,
    pub menu_id: u128,
    pub quantity: i32,
    pub delivered_quantity: i32,
}

/// An order line as read back, joined with the preparation time of its menu
/// entry.
#[derive(Debug, Clone, Copy, PartialEq, Eq, Structural)]
pub struct PartialItemReturn {
    pub id: u128,
    pub tables_id: u128,
    pub menu_id: u128,
    pub quantity: i32,
    pub delivered_quantity: i32,
    pub created_at: i64,
    pub prep_time: i32,
}

/// An entry of the menu.
#[derive(Debug)]
pub struct Menu {
    pub id: u128,
    pub name: String,
    pub price: Price,
    pub prep_time: i32,
}

} // verus!
