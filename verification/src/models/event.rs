//! Events submitted to the system.

use crate::ident::{fresh_id, now_micros};
use crate::json::Json;
use vstd::prelude::*;

verus! {

/// A typed JSON payload, stamped on arrival.
#[derive(Debug, Clone)]
pub struct Event {
    pub id: u128,
    pub event_type: String,
    pub data: Json,
    pub metadata: Option<Json>,
    pub received_at: i64,
}

/// What a caller submits to create an event.
#[derive(Debug, Clone)]
pub struct CreateEvent {
    pub event_type: String,
    pub data: Json,
    pub metadata: Option<Json>,
}

impl Event {
    /// The event of a submission, with the given identifier and arrival time.
    pub fn assemble(id: u128, received_at: i64, create: CreateEvent) -> (r: Event)
        ensures
            r == (Event {
                id,
                event_type: create.event_type,
                data: create.data,
                metadata: create.metadata,
                received_at,
            }),
    {
        Event {
            id,
            event_type: create.event_type,
            data: create.data,
            metadata: create.metadata,
            received_at,
        }
    }

    /// The event of a submission, with a fresh identifier, stamped now.
    pub fn new(create: CreateEvent) -> (r: Event)
        ensures
            r.event_type == create.event_type,
            r.data == create.data,
            r.metadata == create.metadata,
    {
        let id = fresh_id();
        let received_at = now_micros();
        Event::assemble(id, received_at, create)
    }
}

} // verus!
