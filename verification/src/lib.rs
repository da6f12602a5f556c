//! Workflow and event orchestration core.
//!
//! Cases move through the phases of a workflow; a transition fires the
//! automations bound to the phase left and the phase entered; events start
//! the flows whose triggers they match. This crate holds the decisions of
//! such a service and proves them: what a condition evaluates to, what a
//! webhook sends, how a call is retried, which statements a batch of
//! modifications becomes, in which order a transition proceeds.
//!
//! Nothing here performs I/O. The interpreters in [`engine`] and the
//! planners in [`api`] read the outcomes of the effects they asked for from
//! a log and name the next effect; a caller performs it and runs them again
//! with the longer log.
//!
//! - [`json`], [`number`], [`text`], [`ident`]: JSON values, number tokens,
//!   text, identifiers and instants.
//! - [`models`]: workflows, automations, cases, events, flows, executions.
//! - [`engine`]: retry, conditions, the automation interpreter, the flow
//!   executor, the event matcher, and outbound calls as data.
//! - [`api`]: validation and planning of what the service's routes do.
//! - [`services`]: the case webhook.
//! - [`middleware`]: the IP whitelist.

pub mod api;
pub mod engine;
pub mod ident;
pub mod json;
pub mod middleware;
pub mod models;
pub mod number;
pub mod services;
pub mod text;
