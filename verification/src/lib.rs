//! Distributed task-tree values: W3C trace-compatible task identities under
//! an application-supplied URN scheme, validated lifecycle transitions,
//! parent-child lineage, progress, timestamps and resource budgets.
//!
//! Runtime-independent: no async, no I/O, no executor. It is the value
//! layer a distributed task engine is built on.

pub mod budget_refusal;
pub mod event_level;
pub mod identity;
pub mod lifecycle;
pub mod lineage;
pub mod progress;
pub mod progress_unit;
pub mod progress_update;
pub mod resource_envelope;
pub mod scheme;
pub mod terminal_cause;
pub mod text;
pub mod timestamps;
pub mod token_budget;
pub mod tokens;

pub use budget_refusal::BudgetRefusal;
pub use event_level::TaskEventLevel;
pub use identity::{IdentityFault, TaskId, TaskIdentityError, TaskNodeId, TaskTreeId};
pub use lifecycle::{TaskStatus, TaskTransition, TaskTransitionError};
pub use lineage::{TaskLineage, TaskLineageError};
pub use progress::TaskProgress;
pub use progress_unit::ProgressUnit;
pub use progress_update::TaskProgressUpdate;
pub use resource_envelope::{
    ResourceActual, ResourceBudget, ResourceComposition, ResourceReservation,
};
pub use scheme::UrnScheme;
pub use terminal_cause::{
    BudgetResource, DeadlineAuthority, FaultSide, OriginatingCause, TerminalCause,
};
pub use timestamps::TaskTimestamps;
pub use token_budget::TokenBudget;
pub use tokens::Tokens;
