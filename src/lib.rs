//! Loading, checking and rendering of application plans: a project and an
//! ordered list of behaviors that an agent is asked to implement.
pub mod error;
pub mod manager;
pub mod plan;
pub mod prompt;
pub mod sample;
pub mod validate;

pub use error::{LoadOutcome, PlanError, Violation};
pub use manager::PlanManager;
pub use plan::{default_language, Plan, PlanBehavior, ProjectInfo};
