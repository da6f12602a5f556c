//! Flows: event-triggered sequences of steps.

use crate::ident::{fresh_id, now_micros};
use crate::json::Json;
use crate::models::step::Step;
use vstd::prelude::*;

verus! {

/// Which events start a flow: those of the given type whose data pass the
/// filters.
#[derive(Debug, Clone)]
pub struct FlowTrigger {
    pub event_type: String,
    pub filters: Json,
}

/// An event-triggered sequence of steps.
#[derive(Debug, Clone)]
pub struct Flow {
    pub id: u128,
    pub name: String,
    pub trigger: FlowTrigger,
    pub steps: Vec<Step>,
    pub active: bool,
    pub created_at: i64,
    pub updated_at: i64,
}

/// What a caller submits to create a flow.
#[derive(Debug, Clone)]
pub struct CreateFlow {
    pub name: String,
    pub trigger: FlowTrigger,
    pub steps: Vec<Step>,
    pub active: bool,
}

/// What a caller submits to change a flow: each field that is present
/// replaces the flow's.
#[derive(Debug, Clone)]
pub struct UpdateFlow {
    pub name: Option<String>,
    pub trigger: Option<FlowTrigger>,
    pub steps: Option<Vec<Step>>,
    pub active: Option<bool>,
}

/// Whether a flow is active where its submission does not say.
pub fn default_active() -> (r: bool)
    ensures
        r,
{
    true
}

impl Flow {
    /// The flow of a submission, with the given identifier and creation time.
    pub fn assemble(id: u128, now: i64, create: CreateFlow) -> (r: Flow)
        ensures
            r == (Flow {
                id,
                name: create.name,
                trigger: create.trigger,
                steps: create.steps,
                active: create.active,
                created_at: now,
                updated_at: now,
            }),
    {
        Flow {
            id,
            name: create.name,
            trigger: create.trigger,
            steps: create.steps,
            active: create.active,
            created_at: now,
            updated_at: now,
        }
    }

    /// The flow of a submission, with a fresh identifier, created now.
    pub fn new(create: CreateFlow) -> (r: Flow)
        ensures
            r.name == create.name,
            r.trigger == create.trigger,
            r.steps == create.steps,
            r.active == create.active,
            r.created_at == r.updated_at,
    {
        let id = fresh_id();
        let now = now_micros();
        Flow::assemble(id, now, create)
    }

    /// The flow with each present field of `update` in place of its own,
    /// changed at `now`.
    pub open spec fn apply_update_spec(self, update: UpdateFlow, now: i64) -> Flow {
        Flow {
            id: self.id,
            name: if update.name is Some {
                update.name->0
            } else {
                self.name
            },
            trigger: if update.trigger is Some {
                update.trigger->0
            } else {
                self.trigger
            },
            steps: if update.steps is Some {
                update.steps->0
            } else {
                self.steps
            },
            active: if update.active is Some {
                update.active->0
            } else {
                self.active
            },
            created_at: self.created_at,
            updated_at: now,
        }
    }

    /// The flow with each present field of `update` in place of its own,
    /// changed at `now`.
    pub fn apply_update(self, update: UpdateFlow, now: i64) -> (r: Flow)
        ensures
            r == self.apply_update_spec(update, now),
    {
        let mut flow = self;
        if let Some(name) = update.name {
            flow.name = name;
        }
        if let Some(trigger) = update.trigger {
            flow.trigger = trigger;
        }
        if let Some(steps) = update.steps {
            flow.steps = steps;
        }
        if let Some(active) = update.active {
            flow.active = active;
        }
        flow.updated_at = now;
        flow
    }
}

} // verus!
