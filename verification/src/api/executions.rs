//! Listing executions, and the retry that is not offered.

use crate::api::response::ApiError;
use vstd::prelude::*;

verus! {

/// The executions of a listing where the query names no limit.
pub const DEFAULT_EXECUTION_LIMIT: i64 = 100;

/// The status of a route that is not implemented.
pub const NOT_IMPLEMENTED: u16 = 501;

/// How many executions a listing holds at most: the limit of the query, or
/// 100 where it names none.
pub fn list_executions(limit: Option<i64>) -> (r: i64)
    ensures
        r == match limit {
            Some(l) => l,
            None => DEFAULT_EXECUTION_LIMIT,
        },
{
    match limit {
        Some(l) => l,
        None => DEFAULT_EXECUTION_LIMIT,
    }
}

/// The answer to a request to retry an execution: not implemented.
pub fn retry_execution() -> (r: ApiError)
    ensures
        r.is(NOT_IMPLEMENTED, "Not Implemented"@),
{
    ApiError::new(NOT_IMPLEMENTED, "Not Implemented")
}

} // verus!
