//! Listing cases: the page a query asks for.

use crate::models::case::ListCasesQuery;
use vstd::prelude::*;

verus! {

/// The cases of a listing where the query names no limit.
pub const DEFAULT_LIMIT: i64 = 50;

/// No listing holds more cases than this.
pub const MAX_LIMIT: i64 = 100;

/// A page of a listing: how many cases at most, after how many.
#[derive(Debug, Clone, Copy, PartialEq, Eq, Structural)]
pub struct Page {
    pub limit: i64,
    pub offset: i64,
}

/// The page that a query asks for: its limit, or 50 where it names none,
/// but never more than 100; its offset, or none.
pub open spec fn page_of(query: ListCasesQuery) -> Page {
    let asked = match query.limit {
        Some(l) => l,
        None => DEFAULT_LIMIT,
    };
    Page {
        limit: if asked <= MAX_LIMIT {
            asked
        } else {
            MAX_LIMIT
        },
        offset: match query.offset {
            Some(o) => o,
            None => 0,
        },
    }
}

/// The page that a query for cases asks for.
pub fn list_cases(query: &ListCasesQuery) -> (r: Page)
    ensures
        r == page_of(*query),
        r.limit <= MAX_LIMIT,
{
    let asked = match query.limit {
        Some(l) => l,
        None => DEFAULT_LIMIT,
    };
    Page {
        limit: if asked <= MAX_LIMIT {
            asked
        } else {
            MAX_LIMIT
        },
        offset: match query.offset {
            Some(o) => o,
            None => 0,
        },
    }
}

} // verus!
