//! The errors of the gateway and the text shown for them.

use vstd::prelude::*;
use crate::db::store::StoreFailure;

verus! {

/// The operation during which the store failed.
#[derive(Debug, Clone, Copy, PartialEq, Eq, Structural)]
pub enum Operation {
    AddingTable,
    AddingMenu,
    CreatingItems,
    CreatingItem,
    UpdatingItem,
    UpdatingItems,
}

impl Operation {
    /// The words that name this operation in an error message.
    pub open spec fn spec_text(self) -> Seq<char> {
        match self {
            Operation::AddingTable => "adding table"@,
            Operation::AddingMenu => "adding menu"@,
            Operation::CreatingItems => "creating items"@,
            Operation::CreatingItem => "creating item"@,
            Operation::UpdatingItem => "updating item"@,
            Operation::UpdatingItems => "updating items"@,
        }
    }

    /// The words that name this operation in an error message.
    pub fn text(&self) -> (text: &'static str)
        ensures
            text@ == self.spec_text(),
    {
        match self {
            Operation::AddingTable => "adding table",
            Operation::AddingMenu => "adding menu",
            Operation::CreatingItems => "creating items",
            Operation::CreatingItem => "creating item",
            Operation::UpdatingItem => "updating item",
            Operation::UpdatingItems => "updating items",
        }
    }
}

/// Why an operation of the gateway failed.
#[derive(Debug, Clone, Copy, PartialEq, Eq, Structural)]
pub enum DbError {
    /// The batch holds more requests than the limit allows. Nothing was sent
    /// to the store.
    LimitExceeded,
    /// The row asked for does not exist.
    NotFound,
    /// The store refused the statement; the operation names the context.
    Store(Operation, StoreFailure),
}

/// The message of a store error in its context: the words that name the
/// operation, a colon, and what the store said.
pub open spec fn spec_with_context(operation: Operation, message: Seq<char>) -> Seq<char> {
    operation.spec_text() + ": "@ + message
}

/// Puts the words that name the operation in front of what the store said.
pub fn with_context(operation: Operation, message: &str) -> (text: String)
    ensures
        text@ == spec_with_context(operation, message@),
{
    let mut text = String::from_str(operation.text());
    text.append(": ");
    text.append(message);
    text
}

impl DbError {
    /// The text shown for this error.
    pub open spec fn spec_message(self) -> Seq<char> {
        match self {
            DbError::LimitExceeded => "The number of items exceeds the limit of 100"@,
            DbError::NotFound => "no rows returned by a query that expected to return at least one row"@,
            DbError::Store(operation, failure) => spec_with_context(
                operation,
                failure.spec_text(),
            ),
        }
    }

    /// The text shown for this error.
    pub fn message(&self) -> (text: String)
        ensures
            text@ == self.spec_message(),
    {
        match self {
            DbError::LimitExceeded => String::from_str(
                "The number of items exceeds the limit of 100",
            ),
            DbError::NotFound => String::from_str(
                "no rows returned by a query that expected to return at least one row",
            ),
            DbError::Store(operation, failure) => with_context(*operation, failure.text()),
        }
    }
}

} // verus!
