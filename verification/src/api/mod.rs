//! What the service decides between reading a request and answering it:
//! validation, the planning of case transitions and their transactions,
//! and the answers themselves.

pub mod cases;
pub mod events;
pub mod executions;
pub mod flows;
pub mod response;
pub mod workflows;
