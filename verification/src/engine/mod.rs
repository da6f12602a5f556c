//! The execution core: retry, event matching, and the interpreters of
//! automations and flows.

pub mod automation_executor;
pub mod conditions;
pub mod executor;
pub mod http;
pub mod matcher;
pub mod retry;

pub use automation_executor::AutomationExecutor;
pub use executor::Executor;
pub use matcher::Matcher;
pub use retry::RetryExecutor;
