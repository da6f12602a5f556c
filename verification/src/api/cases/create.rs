//! Creating a case: what is validated, what is persisted, and what follows.

use crate::api::response::{ApiError, BAD_REQUEST, NOT_FOUND};
use crate::json::{Json, JsonView};
use crate::ident::{render_uuid, uuid_text};
use crate::models::case::{Case, CaseHistory, CaseStatus, CreateCase};
use crate::models::event::CreateEvent;
use crate::models::workflow::Workflow;
use crate::services::webhook::{setting_enables, webhook_enabled};
use crate::text::text_views;
use vstd::prelude::*;
use vstd::string::*;

verus! {

/// A case to persist, with the first row of its history.
#[derive(Debug)]
pub struct CaseCreation {
    pub case: Case,
    pub history: CaseHistory,
}

/// The message for a phase that a workflow does not have.
pub open spec fn unknown_phase_message(phase: Seq<char>) -> Seq<char> {
    "Phase '"@ + phase + "' not found in workflow"@
}

/// The error for a phase that a workflow does not have.
pub fn unknown_phase(phase: &str) -> (r: ApiError)
    ensures
        r.is(BAD_REQUEST, unknown_phase_message(phase@)),
{
    ApiError {
        status: BAD_REQUEST,
        message: String::from_str("Phase '").concat(phase).concat("' not found in workflow"),
    }
}

/// The phase in which a case starts: the one its submission names, or the
/// workflow's initial phase.
pub open spec fn starting_phase(workflow: Workflow, payload: CreateCase) -> String {
    match payload.initial_phase {
        Some(p) => p,
        None => workflow.initial_phase,
    }
}

/// Plans the creation of a case in the workflow that was found for the
/// submission, if one was.
///
/// Without a workflow, or with one that is not active, the answer is 404.
/// Where the workflow does not have the phase in which the case is to
/// start, the answer is 400. Else the case is active in that phase, with
/// the data and metadata of the submission, and its history begins with a
/// row from no phase to that phase.
pub fn create_case(workflow: Option<&Workflow>, payload: CreateCase) -> (r: Result<
    CaseCreation,
    ApiError,
>)
    ensures
        match r {
            Ok(creation) => {
                &&& workflow matches Some(w) && w.active
                &&& text_views(workflow->0.phases@).contains(creation.case.current_phase@)
                &&& creation.case.workflow_id == payload.workflow_id
                &&& creation.case.current_phase@ == starting_phase(*workflow->0, payload)@
                &&& creation.case.previous_phase is None
                &&& creation.case.data == payload.data
                &&& creation.case.metadata == payload.metadata
                &&& creation.case.status == CaseStatus::Active
                &&& creation.case.completed_at is None
                &&& creation.case.created_at == creation.case.updated_at
                &&& creation.case.phase_entered_at == creation.case.created_at
                &&& creation.history.case_id == creation.case.id
                &&& creation.history.from_phase is None
                &&& creation.history.to_phase@ == creation.case.current_phase@
                &&& creation.history.reason matches Some(reason) && reason@ == "Case created"@
                &&& creation.history.triggered_by matches Some(who) && who@ == "system"@
            },
            Err(e) => match workflow {
                Some(w) if w.active => !text_views(w.phases@).contains(
                    starting_phase(*w, payload)@,
                ) && e.is(BAD_REQUEST, unknown_phase_message(starting_phase(*w, payload)@)),
                _ => e.is(NOT_FOUND, "Workflow not found or inactive"@),
            },
        },
{
    let workflow = match workflow {
        Some(w) if w.active => w,
        _ => {
            return Err(ApiError::new(NOT_FOUND, "Workflow not found or inactive"));
        },
    };
    let initial_phase = match payload.initial_phase {
        Some(p) => p,
        None => workflow.initial_phase.clone(),
    };
    if !workflow.has_phase(initial_phase.as_str()) {
        return Err(unknown_phase(initial_phase.as_str()));
    }
    let to_phase = initial_phase.clone();
    let case = Case::new(payload.workflow_id, initial_phase, payload.data, payload.metadata);
    let history = CaseHistory::new(
        case.id,
        None,
        to_phase,
        Some(String::from_str("Case created")),
        Some(String::from_str("system")),
    );
    Ok(CaseCreation { case, history })
}

/// The data of the event that tells of a change to a case: the case, its
/// workflow, the phase it is in, the phase it came from, and its data.
pub open spec fn change_event_data(case: Case, from_phase: Option<Seq<char>>) -> JsonView {
    JsonView::Object(
        seq![
            ("case_id"@, JsonView::String(uuid_text(case.id))),
            ("workflow_id"@, JsonView::String(uuid_text(case.workflow_id))),
            ("to_phase"@, JsonView::String(case.current_phase@)),
            (
                "from_phase"@,
                match from_phase {
                    Some(p) => JsonView::String(p),
                    None => JsonView::Null,
                },
            ),
            ("case_data"@, case.data@),
        ],
    )
}

/// The event that tells of a change to a case; it carries the case's
/// metadata as its own.
pub fn change_event(event_type: &str, case: &Case, from_phase: Option<&str>) -> (r: CreateEvent)
    ensures
        r.event_type@ == event_type@,
        r.data@ == change_event_data(
            *case,
            match from_phase {
                Some(p) => Some(p@),
                None => None,
            },
        ),
        match (r.metadata, case.metadata) {
            (Some(a), Some(b)) => a@ == b@,
            (None, None) => true,
            _ => false,
        },
{
    let mut members: Vec<(String, Json)> = Vec::new();
    members.push((String::from_str("case_id"), Json::String(render_uuid(case.id))));
    members.push((String::from_str("workflow_id"), Json::String(render_uuid(case.workflow_id))));
    members.push((String::from_str("to_phase"), Json::text(case.current_phase.as_str())));
    members.push(
        (
            String::from_str("from_phase"),
            match from_phase {
                Some(p) => Json::text(p),
                None => Json::Null,
            },
        ),
    );
    members.push((String::from_str("case_data"), case.data.clone()));
    let data = Json::Object(members);
    proof {
        data.lemma_object_view();
        assert(data@->Object_0 =~= change_event_data(
            *case,
            match from_phase {
                Some(p) => Some(p@),
                None => None,
            },
        )->Object_0);
    }
    CreateEvent {
        event_type: event_type.to_owned(),
        data,
        metadata: match &case.metadata {
            Some(m) => Some(m.clone()),
            None => None,
        },
    }
}

/// The event that tells of the creation of a case.
pub fn created_event(case: &Case) -> (r: CreateEvent)
    ensures
        r.event_type@ == "case.created"@,
        r.data@ == change_event_data(*case, None),
{
    change_event("case.created", case, None)
}

/// A case webhook gets this many attempts.
pub const CASE_WEBHOOK_ATTEMPTS: u32 = 3;

/// A case webhook to send: where to, and with how many attempts.
#[derive(Debug, Clone)]
pub struct CaseWebhook {
    pub url: String,
    pub max_attempts: u32,
}

/// What follows a change to a case once its automations have run and what
/// they asked for is applied: the event to submit, and the case webhook to
/// send, if any.
#[derive(Debug, Clone)]
pub struct FollowUps {
    pub event: CreateEvent,
    pub webhook: Option<CaseWebhook>,
}

/// What follows a change to a case. The event of the given type tells of
/// the case as it is now. The case webhook goes to the URL of the workflow,
/// where it has one and the setting does not switch the webhook off.
pub fn follow_ups(
    event_type: &str,
    workflow: &Workflow,
    case: &Case,
    from_phase: Option<&str>,
    webhook_setting: Option<&str>,
) -> (r: FollowUps)
    ensures
        r.event.event_type@ == event_type@,
        r.event.data@ == change_event_data(
            *case,
            match from_phase {
                Some(p) => Some(p@),
                None => None,
            },
        ),
        match r.webhook {
            Some(webhook) => {
                &&& workflow.webhook_url == Some(webhook.url)
                &&& webhook.max_attempts == CASE_WEBHOOK_ATTEMPTS
                &&& setting_enables(
                    match webhook_setting {
                        Some(s) => Some(s@),
                        None => None,
                    },
                )
            },
            None => workflow.webhook_url is None || !setting_enables(
                match webhook_setting {
                    Some(s) => Some(s@),
                    None => None,
                },
            ),
        },
{
    let event = change_event(event_type, case, from_phase);
    let webhook = if webhook_enabled(webhook_setting) {
        match &workflow.webhook_url {
            Some(url) => Some(CaseWebhook { url: url.clone(), max_attempts: CASE_WEBHOOK_ATTEMPTS }),
            None => None,
        }
    } else {
        None
    };
    FollowUps { event, webhook }
}

} // verus!
