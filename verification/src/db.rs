//! Statement construction, the batch rules and the store they act on.

pub mod connection;
pub mod error;
pub mod ids;
pub mod insert;
pub mod laws;
pub mod plan;
pub mod query;
pub mod statement;
pub mod store;
pub mod text;
pub mod update;
