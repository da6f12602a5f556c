//! The data model: workflows and their automations, cases and their
//! history, events, flows and their steps, executions.

pub mod automation;
pub mod case;
pub mod event;
pub mod execution;
pub mod flow;
pub mod step;
pub mod workflow;

pub use automation::{
    AutomationAction, AutomationResult, AutomationTrigger, CaseModification, PhaseAutomation,
    WorkflowAutomations, WorkflowSlaConfig,
};
pub use case::Case;
pub use event::Event;
pub use flow::Flow;
pub use workflow::Workflow;
