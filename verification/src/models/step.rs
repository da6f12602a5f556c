//! Steps of a flow.

use crate::json::Json;
use vstd::prelude::*;

verus! {

/// What a step does.
#[derive(Debug)]
pub enum StepType {
    Webhook {
        url: String,
        method: String,
        headers: Vec<(String, String)>,
        body_template: Json,
        timeout_ms: Option<u64>,
        retry: Option<RetryConfig>,
    },
    Condition { condition: String, if_true: Box<Step>, if_false: Box<Step> },
    Delay { duration_ms: u64 },
}

/// One node of a flow.
#[derive(Debug)]
pub struct Step {
    pub name: String,
    pub step_type: StepType,
    pub on_failure: FailureAction,
}

impl Clone for StepType {
    fn clone(&self) -> StepType
        decreases self,
    {
        match self {
            StepType::Webhook { url, method, headers, body_template, timeout_ms, retry } => {
                StepType::Webhook {
                    url: url.clone(),
                    method: method.clone(),
                    headers: headers.clone(),
                    body_template: body_template.clone(),
                    timeout_ms: *timeout_ms,
                    retry: *retry,
                }
            },
            StepType::Condition { condition, if_true, if_false } => StepType::Condition {
                condition: condition.clone(),
                if_true: Box::new((**if_true).clone()),
                if_false: Box::new((**if_false).clone()),
            },
            StepType::Delay { duration_ms } => StepType::Delay { duration_ms: *duration_ms },
        }
    }
}

impl Clone for Step {
    fn clone(&self) -> Step
        decreases self,
    {
        Step {
            name: self.name.clone(),
            step_type: self.step_type.clone(),
            on_failure: self.on_failure,
        }
    }
}

/// What a flow does when a step fails.
#[derive(Debug, Clone, Copy, PartialEq, Eq, Structural)]
pub enum FailureAction {
    Stop,
    Continue,
}

impl Default for FailureAction {
    fn default() -> (r: FailureAction)
        ensures
            r == FailureAction::Stop,
    {
        FailureAction::Stop
    }
}

/// How the delay between attempts grows.
#[derive(Debug, Clone, Copy, PartialEq, Eq, Structural)]
pub enum BackoffStrategy {
    Fixed,
    Exponential,
}

/// The retry budget of a webhook step.
#[derive(Debug, Clone, Copy)]
pub struct RetryConfig {
    pub max_attempts: u32,
    pub backoff: BackoffStrategy,
    pub initial_delay_ms: u64,
}

/// The delay before the first retry where a configuration names none.
pub fn default_initial_delay() -> (r: u64)
    ensures
        r == 1000,
{
    1000
}

impl Default for RetryConfig {
    fn default() -> (r: RetryConfig)
        ensures
            r.max_attempts == 3,
            r.backoff == BackoffStrategy::Exponential,
            r.initial_delay_ms == 1000,
    {
        RetryConfig {
            max_attempts: 3,
            backoff: BackoffStrategy::Exponential,
            initial_delay_ms: default_initial_delay(),
        }
    }
}

} // verus!
