//! The recorded outcome of running one flow for one event.

use crate::ident::{fresh_id, now_micros};
use crate::json::Json;
use vstd::prelude::*;

verus! {

/// Where an execution stands.
#[derive(Debug, Clone, Copy, PartialEq, Eq, Structural)]
pub enum ExecutionStatus {
    Pending,
    Running,
    Completed,
    Failed,
    Retrying,
}

/// Where a step of an execution stands.
#[derive(Debug, Clone, Copy, PartialEq, Eq, Structural)]
pub enum StepExecutionStatus {
    Running,
    Completed,
    Failed,
    Skipped,
}

/// What is recorded of one step.
#[derive(Debug, Clone)]
pub struct StepStatus {
    pub status: StepExecutionStatus,
    pub started_at: i64,
    pub completed_at: Option<i64>,
    pub attempts: u32,
    pub response: Option<Json>,
    pub error: Option<String>,
}

/// One run of a flow for an event. `steps_status` maps a step's name to what
/// was recorded of it, one entry per name.
#[derive(Debug, Clone)]
pub struct Execution {
    pub id: u128,
    pub flow_id: u128,
    pub event_id: u128,
    pub status: ExecutionStatus,
    pub current_step: Option<String>,
    pub steps_status: Vec<(String, StepStatus)>,
    pub started_at: i64,
    pub completed_at: Option<i64>,
    pub error: Option<String>,
}

impl Execution {
    /// A pending execution with the given identifier and start time.
    pub fn assemble(id: u128, started_at: i64, flow_id: u128, event_id: u128) -> (r: Execution)
        ensures
            r.id == id,
            r.flow_id == flow_id,
            r.event_id == event_id,
            r.status == ExecutionStatus::Pending,
            r.current_step is None,
            r.steps_status@.len() == 0,
            r.started_at == started_at,
            r.completed_at is None,
            r.error is None,
    {
        Execution {
            id,
            flow_id,
            event_id,
            status: ExecutionStatus::Pending,
            current_step: None,
            steps_status: Vec::new(),
            started_at,
            completed_at: None,
            error: None,
        }
    }

    /// A pending execution with a fresh identifier, started now.
    pub fn new(flow_id: u128, event_id: u128) -> (r: Execution)
        ensures
            r.flow_id == flow_id,
            r.event_id == event_id,
            r.status == ExecutionStatus::Pending,
            r.current_step is None,
            r.steps_status@.len() == 0,
            r.completed_at is None,
            r.error is None,
    {
        let id = fresh_id();
        let started_at = now_micros();
        Execution::assemble(id, started_at, flow_id, event_id)
    }
}

} // verus!
