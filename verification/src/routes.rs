//! How the outcome of each operation is answered at the request boundary.
//!
//! Each function takes what the gateway returned, with a store error reduced
//! to its message, and gives the status and the body of the answer.

use vstd::prelude::*;
use crate::db::ids::{id_text, uuid_text};
use crate::db::text::{decimal, push_decimal};
use crate::models::restaurant_models::{PartialItem, PartialItemReturn};
use crate::models::route_models::{BulkNewItemResponse, ErrorResponse, SuccessResponse};

verus! {

/// The request succeeded and the answer carries what was asked for.
pub const OK: u16 = 200;

/// The request made new rows.
pub const CREATED: u16 = 201;

/// The request succeeded and the answer carries nothing.
pub const NO_CONTENT: u16 = 204;

/// The request asked for nothing that could be done.
pub const BAD_REQUEST: u16 = 400;

/// Nothing matched the request.
pub const NOT_FOUND: u16 = 404;

/// The store failed.
pub const INTERNAL_SERVER_ERROR: u16 = 500;

/// What an answer carries.
#[derive(Debug)]
pub enum ResponseBody {
    Empty,
    Items(Vec<PartialItemReturn>),
    Item(PartialItemReturn),
    Created(BulkNewItemResponse),
    Success(SuccessResponse),
    Error(ErrorResponse),
}

/// An answer: its status code and its body.
#[derive(Debug)]
pub struct Response {
    pub status: u16,
    pub body: ResponseBody,
}

impl Response {
    /// True when this answer has the status `status` and an error body that
    /// reads `message`.
    pub open spec fn is_error(&self, status: u16, message: Seq<char>) -> bool {
        &&& self.status == status
        &&& self.body is Error
        &&& self.body->Error_0.message@ == message
    }
}

fn error(status: u16, message: String) -> (response: Response)
    ensures
        response.is_error(status, message@),
{
    Response { status, body: ResponseBody::Error(ErrorResponse { message }) }
}

/// Answers a listing of what is still to be brought out to a table: the rows
/// with 200, 404 where there are none, 500 where the store failed.
pub fn items_list(tables_id: u128, outcome: Result<Vec<PartialItemReturn>, String>) -> (response:
    Response)
    ensures
        match outcome {
            Ok(items) => if items@.len() == 0 {
                response.is_error(
                    NOT_FOUND,
                    "No items found for table with id "@ + uuid_text(tables_id),
                )
            } else {
                response.status == OK && response.body == ResponseBody::Items(items)
            },
            Err(message) => response.is_error(
                INTERNAL_SERVER_ERROR,
                "Database error: "@ + message@,
            ),
        },
{
    match outcome {
        Ok(items) => {
            if items.len() == 0 {
                let mut message = String::from_str("No items found for table with id ");
                message.append(id_text(tables_id).as_str());
                error(NOT_FOUND, message)
            } else {
                Response { status: OK, body: ResponseBody::Items(items) }
            }
        },
        Err(cause) => {
            let mut message = String::from_str("Database error: ");
            message.append(cause.as_str());
            error(INTERNAL_SERVER_ERROR, message)
        },
    }
}

/// Answers a bulk creation: the created rows with 201, 400 where none was
/// created, 500 where the creation failed.
pub fn items_create(tables_id: u128, outcome: Result<Vec<PartialItem>, String>) -> (response:
    Response)
    ensures
        match outcome {
            Ok(items) => if items@.len() == 0 {
                response.is_error(
                    BAD_REQUEST,
                    "No items were created for table with id "@ + uuid_text(tables_id),
                )
            } else {
                response.status == CREATED && response.body == ResponseBody::Created(
                    (BulkNewItemResponse { items }),
                )
            },
            Err(message) => response.is_error(
                INTERNAL_SERVER_ERROR,
                "Failed to create items: "@ + message@,
            ),
        },
{
    match outcome {
        Ok(items) => {
            if items.len() == 0 {
                let mut message = String::from_str("No items were created for table with id ");
                message.append(id_text(tables_id).as_str());
                error(BAD_REQUEST, message)
            } else {
                Response {
                    status: CREATED,
                    body: ResponseBody::Created(BulkNewItemResponse { items }),
                }
            }
        },
        Err(cause) => {
            let mut message = String::from_str("Failed to create items: ");
            message.append(cause.as_str());
            error(INTERNAL_SERVER_ERROR, message)
        },
    }
}

/// Answers the read of one order line: the row with 200, 500 on any failure.
pub fn item_get(outcome: Result<PartialItemReturn, String>) -> (response: Response)
    ensures
        match outcome {
            Ok(item) => response.status == OK && response.body == ResponseBody::Item(item),
            Err(message) => response.is_error(
                INTERNAL_SERVER_ERROR,
                "Failed to retrieve item: "@ + message@,
            ),
        },
{
    match outcome {
        Ok(item) => Response { status: OK, body: ResponseBody::Item(item) },
        Err(cause) => {
            let mut message = String::from_str("Failed to retrieve item: ");
            message.append(cause.as_str());
            error(INTERNAL_SERVER_ERROR, message)
        },
    }
}

/// Answers the removal of one order line: 204 where a row went, 404 where
/// none matched, 500 where the store failed.
pub fn item_delete(tables_id: u128, item_id: u128, outcome: Result<bool, String>) -> (response:
    Response)
    ensures
        match outcome {
            Ok(true) => response.status == NO_CONTENT && response.body == ResponseBody::Empty,
            Ok(false) => response.is_error(
                NOT_FOUND,
                "Item with id "@ + uuid_text(item_id) + " not found in table "@ + uuid_text(
                    tables_id,
                ),
            ),
            Err(message) => response.is_error(
                INTERNAL_SERVER_ERROR,
                "Failed to delete item: "@ + message@,
            ),
        },
{
    match outcome {
        Ok(true) => Response { status: NO_CONTENT, body: ResponseBody::Empty },
        Ok(false) => {
            let mut message = String::from_str("Item with id ");
            message.append(id_text(item_id).as_str());
            message.append(" not found in table ");
            message.append(id_text(tables_id).as_str());
            error(NOT_FOUND, message)
        },
        Err(cause) => {
            let mut message = String::from_str("Failed to delete item: ");
            message.append(cause.as_str());
            error(INTERNAL_SERVER_ERROR, message)
        },
    }
}

/// Answers a bulk update: 200 with the number of rows touched, 404 where none
/// was, 500 where the update failed.
pub fn item_update(outcome: Result<usize, String>) -> (response: Response)
    ensures
        match outcome {
            Ok(updated_count) => if updated_count == 0 {
                response.is_error(NOT_FOUND, "No items were updated"@)
            } else {
                &&& response.status == OK
                &&& response.body is Success
                &&& response.body->Success_0.message@ == decimal(updated_count as nat)
                    + " items updated successfully"@
            },
            Err(message) => response.is_error(
                INTERNAL_SERVER_ERROR,
                "Failed to update items: "@ + message@,
            ),
        },
{
    match outcome {
        Ok(updated_count) => {
            if updated_count == 0 {
                error(NOT_FOUND, String::from_str("No items were updated"))
            } else {
                let mut message = String::new();
                push_decimal(&mut message, updated_count);
                message.append(" items updated successfully");
                assert(message@ =~= decimal(updated_count as nat) + " items updated successfully"@);
                Response {
                    status: OK,
                    body: ResponseBody::Success(SuccessResponse { message }),
                }
            }
        },
        Err(cause) => {
            let mut message = String::from_str("Failed to update items: ");
            message.append(cause.as_str());
            error(INTERNAL_SERVER_ERROR, message)
        },
    }
}

} // verus!
