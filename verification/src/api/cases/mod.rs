//! Creating and moving cases, and applying what their automations ask for.

pub mod automation_handler;
pub mod create;
pub mod move_case;
pub mod query;
pub mod transition;

pub use automation_handler::{apply_automation_modifications, execute_and_apply_automations};
pub use create::create_case;
pub use move_case::move_case;
pub use query::list_cases;
