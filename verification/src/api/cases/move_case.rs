//! Moving a case to another phase: what is validated, what is persisted,
//! and what follows.

use crate::api::cases::create::{change_event, change_event_data, unknown_phase, unknown_phase_message};
use crate::api::response::{ApiError, BAD_REQUEST, NOT_FOUND};
use crate::ident::now_micros;
use crate::models::case::{Case, CaseHistory, MoveCase};
use crate::models::event::CreateEvent;
use crate::models::workflow::Workflow;
use crate::text::{text_equal, text_views};
use vstd::prelude::*;

verus! {

/// What a request to move a case comes to.
#[derive(Debug)]
pub enum CaseMove {
    /// The case is in the target phase already: nothing changes.
    AlreadyThere { case: Case },
    /// The case moves: its new state, the row for its history, and the
    /// phase it leaves.
    Moved { case: Case, history: CaseHistory, from_phase: String },
}

/// Plans the move of a case at `now`, given the case and the workflow that
/// were found for the request, if they were.
///
/// Without the case or without its workflow the answer is 404; for a phase
/// that the workflow does not have it is 400. A case that is in the target
/// phase already stays as it is. Any other case moves: the phase it leaves
/// becomes its previous phase, its entry into the new phase and its last
/// change are stamped with `now`, and its history gets a row with the
/// reason and the originator that the request names.
pub fn move_case_at(case: Option<Case>, workflow: Option<&Workflow>, payload: MoveCase, now: i64) -> (r:
    Result<CaseMove, ApiError>)
    ensures
        match r {
            Ok(CaseMove::AlreadyThere { case: same }) => {
                &&& case == Some(same)
                &&& workflow is Some
                &&& same.current_phase@ == payload.to_phase@
                &&& text_views(workflow->0.phases@).contains(payload.to_phase@)
            },
            Ok(CaseMove::Moved { case: moved, history, from_phase }) => {
                &&& case is Some
                &&& workflow is Some
                &&& text_views(workflow->0.phases@).contains(payload.to_phase@)
                &&& case->0.current_phase@ != payload.to_phase@
                &&& from_phase == case->0.current_phase
                &&& moved == (Case {
                    current_phase: payload.to_phase,
                    previous_phase: Some(case->0.current_phase),
                    updated_at: now,
                    phase_entered_at: now,
                    ..case->0
                })
                &&& history.case_id == case->0.id
                &&& history.from_phase == Some(case->0.current_phase)
                &&& history.to_phase == payload.to_phase
                &&& history.reason == payload.reason
                &&& history.triggered_by == payload.triggered_by
            },
            Err(e) => if case is None {
                e.is(NOT_FOUND, "Case not found"@)
            } else if workflow is None {
                e.is(NOT_FOUND, "Workflow not found"@)
            } else {
                !text_views(workflow->0.phases@).contains(payload.to_phase@) && e.is(
                    BAD_REQUEST,
                    unknown_phase_message(payload.to_phase@),
                )
            },
        },
{
    let mut case = match case {
        Some(c) => c,
        None => {
            return Err(ApiError::new(NOT_FOUND, "Case not found"));
        },
    };
    let workflow = match workflow {
        Some(w) => w,
        None => {
            return Err(ApiError::new(NOT_FOUND, "Workflow not found"));
        },
    };
    if !workflow.has_phase(payload.to_phase.as_str()) {
        return Err(unknown_phase(payload.to_phase.as_str()));
    }
    if text_equal(case.current_phase.as_str(), payload.to_phase.as_str()) {
        return Ok(CaseMove::AlreadyThere { case });
    }
    let from_phase = case.current_phase.clone();
    let to_phase = payload.to_phase.clone();
    case.move_to_phase_at(payload.to_phase, now);
    let history = CaseHistory::new(
        case.id,
        Some(from_phase.clone()),
        to_phase,
        payload.reason,
        payload.triggered_by,
    );
    Ok(CaseMove::Moved { case, history, from_phase })
}

/// Plans the move of a case now.
pub fn move_case(case: Option<Case>, workflow: Option<&Workflow>, payload: MoveCase) -> (r: Result<
    CaseMove,
    ApiError,
>)
    ensures
        match r {
            Ok(CaseMove::AlreadyThere { case: same }) => case == Some(same) && workflow is Some
                && same.current_phase@ == payload.to_phase@,
            Ok(CaseMove::Moved { case: moved, history, from_phase }) => {
                &&& case is Some
                &&& workflow is Some
                &&& text_views(workflow->0.phases@).contains(payload.to_phase@)
                &&& case->0.current_phase@ != payload.to_phase@
                &&& from_phase == case->0.current_phase
                &&& moved.current_phase == payload.to_phase
                &&& moved.previous_phase == Some(case->0.current_phase)
                &&& moved.phase_entered_at == moved.updated_at
                &&& moved.id == case->0.id
                &&& moved.workflow_id == case->0.workflow_id
                &&& moved.data == case->0.data
                &&& moved.status == case->0.status
                &&& moved.metadata == case->0.metadata
                &&& moved.created_at == case->0.created_at
                &&& moved.completed_at == case->0.completed_at
                &&& history.case_id == case->0.id
                &&& history.from_phase == Some(case->0.current_phase)
                &&& history.to_phase == payload.to_phase
                &&& history.reason == payload.reason
                &&& history.triggered_by == payload.triggered_by
            },
            Err(e) => if case is None {
                e.is(NOT_FOUND, "Case not found"@)
            } else if workflow is None {
                e.is(NOT_FOUND, "Workflow not found"@)
            } else {
                !text_views(workflow->0.phases@).contains(payload.to_phase@) && e.is(
                    BAD_REQUEST,
                    unknown_phase_message(payload.to_phase@),
                )
            },
        },
{
    let now = now_micros();
    move_case_at(case, workflow, payload, now)
}

/// The event that tells of the move of a case from a phase.
pub fn moved_event(case: &Case, from_phase: &str) -> (r: CreateEvent)
    ensures
        r.event_type@ == "case.moved"@,
        r.data@ == change_event_data(*case, Some(from_phase@)),
{
    change_event("case.moved", case, Some(from_phase))
}

/// A move to the phase a case is in changes nothing of the case: not its
/// last change, not its previous phase, not its entry into the phase.
pub proof fn lemma_noop_move_changes_nothing(before: Case, r: CaseMove)
    requires
        r matches CaseMove::AlreadyThere { case } && Some(case) == Some(before),
    ensures
        r->AlreadyThere_case.updated_at == before.updated_at,
        r->AlreadyThere_case.previous_phase == before.previous_phase,
        r->AlreadyThere_case.phase_entered_at == before.phase_entered_at,
        r->AlreadyThere_case == before,
{
}

/// A move that is stamped later than the case entered its phase advances
/// the entry: the case is in the new phase since the move.
pub proof fn lemma_move_advances_entry(before: Case, after: Case, to_phase: String, now: i64)
    requires
        now > before.phase_entered_at,
        after == (Case {
            current_phase: to_phase,
            previous_phase: Some(before.current_phase),
            updated_at: now,
            phase_entered_at: now,
            ..before
        }),
    ensures
        after.phase_entered_at > before.phase_entered_at,
        after.previous_phase == Some(before.current_phase),
{
}

} // verus!
