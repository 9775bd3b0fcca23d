//! Query options and response envelopes of the request boundary.

use vstd::prelude::*;
use crate::models::restaurant_models::PartialItem;

verus! {

/// The limit that applies when a caller names none.
pub const DEFAULT_LIMIT: usize = 10;

/// The offset that applies when a caller names none.
pub const DEFAULT_OFFSET: usize = 0;

/// Which window of the matching rows to return.
#[derive(Debug, Clone, Copy, PartialEq, Eq, Structural)]
pub struct Pagination {
    pub limit: Option<usize>,
    pub offset: Option<usize>,
}

/// Optional restrictions on the rows to return.
#[derive(Debug, Clone, Copy, PartialEq, Eq, Structural)]
pub struct FilterParams {
    pub menu_id: Option<u128>,
}

/// The envelope around the rows that a bulk creation made.
#[derive(Debug)]
pub struct BulkNewItemResponse {
    pub items: Vec<PartialItem>,
}

/// The body of a failed request.
#[derive(Debug)]
pub struct ErrorResponse {
    pub message: String,
}

/// The body of a request that succeeded without rows to show.
#[derive(Debug)]
pub struct SuccessResponse {
    pub message: String,
}

impl Pagination {
    /// The number of rows asked for, ten when none was named.
    pub open spec fn spec_limit(self) -> usize {
        match self.limit {
            Some(limit) => limit,
            None => DEFAULT_LIMIT,
        }
    }

    /// The number of rows to skip, zero when none was named.
    pub open spec fn spec_offset(self) -> usize {
        match self.offset {
            Some(offset) => offset,
            None => DEFAULT_OFFSET,
        }
    }

    /// The number of rows asked for, ten when none was named.
    pub fn effective_limit(&self) -> (limit: usize)
        ensures
            limit == self.spec_limit(),
    {
        match self.limit {
            Some(limit) => limit,
            None => DEFAULT_LIMIT,
        }
    }

    /// The number of rows to skip, zero when none was named.
    pub fn effective_offset(&self) -> (offset: usize)
        ensures
            offset == self.spec_offset(),
    {
        match self.offset {
            Some(offset) => offset,
            None => DEFAULT_OFFSET,
        }
    }
}

} // verus!
