//! Creating and changing workflows: what is validated.

use crate::api::response::{ApiError, BAD_REQUEST, NOT_FOUND};
use crate::models::workflow::{
    initial_phase_message, update_refusal, CreateWorkflow, UpdateWorkflow, Workflow,
};
use crate::text::text_views;
use vstd::prelude::*;

verus! {

/// The workflow of a submission, or the answer 400 with the reason why
/// there is none.
pub fn create_workflow(payload: CreateWorkflow) -> (r: Result<Workflow, ApiError>)
    ensures
        match r {
            Ok(w) => w.well_formed() && w.name == payload.name && w.phases == payload.phases
                && w.initial_phase == payload.initial_phase && w.webhook_url == payload.webhook_url
                && w.active == payload.active && w.description == payload.description
                && w.automations == payload.automations && w.sla_config == payload.sla_config,
            Err(e) => !text_views(payload.phases@).contains(payload.initial_phase@) && e.is(
                BAD_REQUEST,
                initial_phase_message(payload.initial_phase@),
            ),
        },
{
    match Workflow::new(payload) {
        Ok(w) => Ok(w),
        Err(message) => Err(ApiError { status: BAD_REQUEST, message }),
    }
}

/// The workflow that was found for the request, changed at `now` as the
/// submission asks; 404 where none was found, 400 where the change is
/// refused.
pub fn update_workflow(existing: Option<Workflow>, payload: UpdateWorkflow, now: i64) -> (r: Result<
    Workflow,
    ApiError,
>)
    ensures
        match r {
            Ok(w) => existing is Some && update_refusal(existing->0, payload) is None
                && existing->0.apply_update_spec(payload, now) == w,
            Err(e) => match existing {
                None => e.is(NOT_FOUND, "Workflow not found"@),
                Some(w) => update_refusal(w, payload) is Some && e.is(
                    BAD_REQUEST,
                    update_refusal(w, payload)->0,
                ),
            },
        },
{
    match existing {
        None => Err(ApiError::new(NOT_FOUND, "Workflow not found")),
        Some(workflow) => match workflow.apply_update(payload, now) {
            Ok(w) => Ok(w),
            Err(message) => Err(ApiError { status: BAD_REQUEST, message }),
        },
    }
}

} // verus!
