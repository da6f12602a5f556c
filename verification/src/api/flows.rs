//! Creating and changing flows.

use crate::api::response::{ApiError, NOT_FOUND};
use crate::models::flow::{CreateFlow, Flow, UpdateFlow};
use vstd::prelude::*;

verus! {

/// The flow of a submission, with a fresh identifier, created now.
pub fn create_flow(payload: CreateFlow) -> (r: Flow)
    ensures
        r.name == payload.name,
        r.trigger == payload.trigger,
        r.steps == payload.steps,
        r.active == payload.active,
        r.created_at == r.updated_at,
{
    Flow::new(payload)
}

/// The flow that was found for the request, changed at `now` as the
/// submission asks; 404 where none was found.
pub fn update_flow(existing: Option<Flow>, payload: UpdateFlow, now: i64) -> (r: Result<
    Flow,
    ApiError,
>)
    ensures
        match r {
            Ok(f) => existing is Some && f == existing->0.apply_update_spec(payload, now),
            Err(e) => existing is None && e.is(NOT_FOUND, "Flow not found"@),
        },
{
    match existing {
        None => Err(ApiError::new(NOT_FOUND, "Flow not found")),
        Some(flow) => Ok(flow.apply_update(payload, now)),
    }
}

} // verus!
