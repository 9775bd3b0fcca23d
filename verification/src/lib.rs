//! Order tracking for restaurant tables.
//!
//! Tables order menu entries; each order line records how many units were
//! asked for and how many have been brought out so far. The crate builds the
//! multi-row statements that create and update order lines in one round trip,
//! enforces the batch limit, and states what those statements mean on an
//! in-process store, so that the rules can be proved rather than only tested.

pub mod config;
pub mod db;
pub mod models;
pub mod routes;
