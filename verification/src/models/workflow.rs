//! Workflows: the phases a case can be in, and what fires between them.

use crate::ident::{fresh_id, now_micros};
use crate::models::automation::{WorkflowAutomations, WorkflowSlaConfig};
use crate::text::{find_name, has_name, position, text_views};
use vstd::prelude::*;
use vstd::string::*;

verus! {

/// A named, ordered list of phases with optional automations and time
/// limits.
#[derive(Debug, Clone)]
pub struct Workflow {
    pub id: u128,
    pub name: String,
    pub phases: Vec<String>,
    pub initial_phase: String,
    pub webhook_url: Option<String>,
    pub active: bool,
    pub description: Option<String>,
    pub automations: Option<WorkflowAutomations>,
    pub sla_config: Option<WorkflowSlaConfig>,
    pub created_at: i64,
    pub updated_at: i64,
}

/// What a caller submits to create a workflow.
#[derive(Debug, Clone)]
pub struct CreateWorkflow {
    pub name: String,
    pub phases: Vec<String>,
    pub initial_phase: String,
    pub webhook_url: Option<String>,
    pub description: Option<String>,
    pub automations: Option<WorkflowAutomations>,
    pub sla_config: Option<WorkflowSlaConfig>,
    pub active: bool,
}

/// What a caller submits to change a workflow: each field that is present
/// replaces the workflow's.
#[derive(Debug, Clone)]
pub struct UpdateWorkflow {
    pub name: Option<String>,
    pub phases: Option<Vec<String>>,
    pub initial_phase: Option<String>,
    pub webhook_url: Option<String>,
    pub description: Option<String>,
    pub automations: Option<WorkflowAutomations>,
    pub sla_config: Option<WorkflowSlaConfig>,
    pub active: Option<bool>,
}

/// Whether a workflow is active where its submission does not say.
pub fn default_active() -> (r: bool)
    ensures
        r,
{
    true
}

/// The message for an initial phase that the phases do not hold.
pub open spec fn initial_phase_message(initial_phase: Seq<char>) -> Seq<char> {
    "Initial phase '"@ + initial_phase + "' must be in phases list"@
}

/// The message for an empty list of phases.
pub open spec fn empty_phases_message() -> Seq<char> {
    "Phases list cannot be empty"@
}

/// The phases a workflow has after an update.
pub open spec fn updated_phases(w: Workflow, update: UpdateWorkflow) -> Vec<String> {
    if update.phases is Some {
        update.phases->0
    } else {
        w.phases
    }
}

/// The initial phase a workflow has after an update.
pub open spec fn updated_initial_phase(w: Workflow, update: UpdateWorkflow) -> String {
    if update.initial_phase is Some {
        update.initial_phase->0
    } else {
        w.initial_phase
    }
}

/// Why an update is refused, if it is: new phases that are empty, or, where
/// the update names phases or an initial phase, an initial phase that the
/// phases after the update do not hold.
pub open spec fn update_refusal(w: Workflow, update: UpdateWorkflow) -> Option<Seq<char>> {
    if update.phases is Some && update.phases->0@.len() == 0 {
        Some(empty_phases_message())
    } else if (update.phases is Some || update.initial_phase is Some) && !text_views(
        updated_phases(w, update)@,
    ).contains(updated_initial_phase(w, update)@) {
        Some(initial_phase_message(updated_initial_phase(w, update)@))
    } else {
        None
    }
}

fn initial_phase_error(initial_phase: &str) -> (r: String)
    ensures
        r@ == initial_phase_message(initial_phase@),
{
    String::from_str("Initial phase '").concat(initial_phase).concat("' must be in phases list")
}

impl Workflow {
    /// The workflow with each present field of `update` in place of its own,
    /// changed at `now`.
    pub open spec fn apply_update_spec(self, update: UpdateWorkflow, now: i64) -> Workflow {
        Workflow {
            id: self.id,
            name: if update.name is Some {
                update.name->0
            } else {
                self.name
            },
            phases: updated_phases(self, update),
            initial_phase: updated_initial_phase(self, update),
            webhook_url: if update.webhook_url is Some {
                update.webhook_url
            } else {
                self.webhook_url
            },
            active: if update.active is Some {
                update.active->0
            } else {
                self.active
            },
            description: if update.description is Some {
                update.description
            } else {
                self.description
            },
            automations: if update.automations is Some {
                update.automations
            } else {
                self.automations
            },
            sla_config: if update.sla_config is Some {
                update.sla_config
            } else {
                self.sla_config
            },
            created_at: self.created_at,
            updated_at: now,
        }
    }

    /// The workflow has a phase, and its initial phase is one of its phases.
    pub open spec fn well_formed(self) -> bool {
        self.phases@.len() >= 1 && text_views(self.phases@).contains(self.initial_phase@)
    }

    /// The workflow of a submission, with the given identifier, created at
    /// `now`; refused where the phases do not hold the initial phase.
    pub fn assemble(id: u128, now: i64, create: CreateWorkflow) -> (r: Result<Workflow, String>)
        ensures
            match r {
                Ok(w) => text_views(create.phases@).contains(create.initial_phase@) && w.well_formed()
                    && w == (Workflow {
                    id,
                    name: create.name,
                    phases: create.phases,
                    initial_phase: create.initial_phase,
                    webhook_url: create.webhook_url,
                    active: create.active,
                    description: create.description,
                    automations: create.automations,
                    sla_config: create.sla_config,
                    created_at: now,
                    updated_at: now,
                }),
                Err(message) => !text_views(create.phases@).contains(create.initial_phase@)
                    && message@ == initial_phase_message(create.initial_phase@),
            },
    {
        if !has_name(&create.phases, create.initial_phase.as_str()) {
            return Err(initial_phase_error(create.initial_phase.as_str()));
        }
        Ok(
            Workflow {
                id,
                name: create.name,
                phases: create.phases,
                initial_phase: create.initial_phase,
                webhook_url: create.webhook_url,
                active: create.active,
                description: create.description,
                automations: create.automations,
                sla_config: create.sla_config,
                created_at: now,
                updated_at: now,
            },
        )
    }

    /// The workflow of a submission, with a fresh identifier, created now;
    /// refused where the phases do not hold the initial phase.
    pub fn new(create: CreateWorkflow) -> (r: Result<Workflow, String>)
        ensures
            match r {
                Ok(w) => text_views(create.phases@).contains(create.initial_phase@) && w.well_formed()
                    && w.name == create.name && w.phases == create.phases && w.initial_phase
                    == create.initial_phase && w.webhook_url == create.webhook_url && w.active
                    == create.active && w.description == create.description && w.automations
                    == create.automations && w.sla_config == create.sla_config && w.created_at
                    == w.updated_at,
                Err(message) => !text_views(create.phases@).contains(create.initial_phase@)
                    && message@ == initial_phase_message(create.initial_phase@),
            },
    {
        let id = fresh_id();
        let now = now_micros();
        Workflow::assemble(id, now, create)
    }

    /// Whether the workflow has a phase of that name.
    pub fn has_phase(&self, phase_name: &str) -> (r: bool)
        ensures
            r == text_views(self.phases@).contains(phase_name@),
    {
        has_name(&self.phases, phase_name)
    }

    /// The place of the first phase of that name.
    pub fn phase_index(&self, phase_name: &str) -> (r: Option<usize>)
        ensures
            match r {
                Some(i) => position(text_views(self.phases@), phase_name@) == Some(i as int) && i
                    < self.phases@.len(),
                None => position(text_views(self.phases@), phase_name@) is None,
            },
    {
        find_name(&self.phases, phase_name)
    }

    /// The phase that follows the first phase of that name, if any does.
    pub fn next_phase(&self, current_phase: &str) -> (r: Option<String>)
        ensures
            match position(text_views(self.phases@), current_phase@) {
                Some(i) if i + 1 < self.phases@.len() => r == Some(self.phases@[i + 1]),
                _ => r is None,
            },
    {
        match find_name(&self.phases, current_phase) {
            Some(i) => {
                if i < self.phases.len() - 1 {
                    Some(self.phases[i + 1].clone())
                } else {
                    None
                }
            },
            None => None,
        }
    }

    /// The phase that precedes the first phase of that name, if any does.
    pub fn previous_phase(&self, current_phase: &str) -> (r: Option<String>)
        ensures
            match position(text_views(self.phases@), current_phase@) {
                Some(i) if i > 0 => r == Some(self.phases@[i - 1]),
                _ => r is None,
            },
    {
        match find_name(&self.phases, current_phase) {
            Some(i) => {
                if i > 0 {
                    Some(self.phases[i - 1].clone())
                } else {
                    None
                }
            },
            None => None,
        }
    }

    /// The workflow with each present field of `update` in place of its own,
    /// changed at `now`. New phases must not be empty, and a new initial
    /// phase must be among the phases as they stand after the update.
    pub fn apply_update(self, update: UpdateWorkflow, now: i64) -> (r: Result<Workflow, String>)
        ensures
            match r {
                Ok(w) => update_refusal(self, update) is None && w == self.apply_update_spec(
                    update,
                    now,
                ),
                Err(message) => update_refusal(self, update) == Some(message@),
            },
    {
        let mut workflow = self;
        if let Some(name) = update.name {
            workflow.name = name;
        }
        let touches_phases = update.phases.is_some() || update.initial_phase.is_some();
        if let Some(phases) = update.phases {
            if phases.len() == 0 {
                return Err(String::from_str("Phases list cannot be empty"));
            }
            workflow.phases = phases;
        }
        if let Some(initial_phase) = update.initial_phase {
            workflow.initial_phase = initial_phase;
        }
        if touches_phases && !workflow.has_phase(workflow.initial_phase.as_str()) {
            return Err(initial_phase_error(workflow.initial_phase.as_str()));
        }
        if let Some(webhook_url) = update.webhook_url {
            workflow.webhook_url = Some(webhook_url);
        }
        if let Some(description) = update.description {
            workflow.description = Some(description);
        }
        if let Some(active) = update.active {
            workflow.active = active;
        }
        if let Some(automations) = update.automations {
            workflow.automations = Some(automations);
        }
        if let Some(sla_config) = update.sla_config {
            workflow.sla_config = Some(sla_config);
        }
        workflow.updated_at = now;
        Ok(workflow)
    }
}

/// An update that is not refused keeps a well-formed workflow well-formed.
pub proof fn lemma_update_keeps_well_formed(w: Workflow, update: UpdateWorkflow, now: i64)
    requires
        w.well_formed(),
        update_refusal(w, update) is None,
    ensures
        w.apply_update_spec(update, now).well_formed(),
{
}

} // verus!
