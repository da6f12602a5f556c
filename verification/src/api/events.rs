//! Submitting an event: the flows it starts and the receipt for it.

use crate::api::response::{ApiError, INTERNAL_SERVER_ERROR};
use crate::engine::matcher::{candidates, Matcher};
use crate::models::automation::referents;
use crate::models::event::{CreateEvent, Event};
use crate::models::execution::Execution;
use crate::models::flow::Flow;
use vstd::prelude::*;

verus! {

/// What the submitter of an event gets back: the event, the executions it
/// started, and how many flows it matched.
#[derive(Debug, Clone)]
pub struct EventReceipt {
    pub event_id: u128,
    pub execution_ids: Vec<u128>,
    pub matched_count: usize,
}

/// The identifiers of a list of executions.
pub open spec fn execution_ids(executions: Seq<Execution>) -> Seq<u128> {
    Seq::new(executions.len(), |i: int| executions[i].id)
}

/// The event of a submission, stamped now under a fresh identifier.
pub fn create_event(payload: CreateEvent) -> (r: Event)
    ensures
        r.event_type == payload.event_type,
        r.data == payload.data,
        r.metadata == payload.metadata,
{
    Event::new(payload)
}

/// The flows among the given ones that the event starts, in their order.
pub fn matched_flows<'a>(event: &Event, flows: &'a [Flow]) -> (r: Vec<&'a Flow>)
    ensures
        referents(r@) == candidates(*event, flows@, flows@.len() as int),
{
    Matcher::match_flows(event, flows)
}

/// The receipt for an event: the identifiers of its executions in the order
/// in which they ran, and the number of flows that it matched.
pub fn receipt(event: &Event, matched_count: usize, executions: &Vec<Execution>) -> (r:
    EventReceipt)
    ensures
        r.event_id == event.id,
        r.matched_count == matched_count,
        r.execution_ids@ == execution_ids(executions@),
{
    let mut ids: Vec<u128> = Vec::new();
    let mut i: usize = 0;
    while i < executions.len()
        invariant
            i <= executions.len(),
            ids@ == execution_ids(executions@).take(i as int),
        decreases executions.len() - i,
    {
        ids.push(executions[i].id);
        assert(ids@ =~= execution_ids(executions@).take(i + 1));
        i += 1;
    }
    assert(execution_ids(executions@).take(i as int) =~= execution_ids(executions@));
    EventReceipt { event_id: event.id, execution_ids: ids, matched_count }
}

/// The error for an event that could not be persisted.
pub fn save_failure() -> (r: ApiError)
    ensures
        r.is(INTERNAL_SERVER_ERROR, "Failed to save event"@),
{
    ApiError::new(INTERNAL_SERVER_ERROR, "Failed to save event")
}

/// The error for flows that could not be loaded.
pub fn load_failure() -> (r: ApiError)
    ensures
        r.is(INTERNAL_SERVER_ERROR, "Failed to load flows"@),
{
    ApiError::new(INTERNAL_SERVER_ERROR, "Failed to load flows")
}

} // verus!
