use vstd::prelude::*;

use crate::plan::Plan;

verus! {

/// The first broken structural rule of a plan. Indices count behaviors
/// from zero, in list order.
#[derive(Debug, Clone, PartialEq, Eq)]
pub enum Violation {
    /// The plan has no behaviors at all.
    NoBehaviors,
    /// The behavior at `index` has an empty id.
    EmptyId { index: usize },
    /// The behavior at `index` has an empty name.
    EmptyName { index: usize },
    /// The behavior at `index` has empty instructions.
    EmptyInstructions { index: usize },
    /// The behavior at `index` repeats the id of an earlier one.
    DuplicateId { index: usize, id: String },
}

/// Why a plan could not be loaded.
#[derive(Debug, Clone, PartialEq, Eq)]
pub enum PlanError {
    /// No plan file exists at `path`.
    NotFound { path: String },
    /// The file at `path` exists but could not be read.
    ReadError { path: String, reason: String },
    /// The contents of `path` are not a plan document.
    ParseError { path: String, reason: String },
    /// The document at `path` parsed but breaks a structural rule.
    ValidationError { path: String, violation: Violation },
}

/// What was found when reading and parsing a plan file.
#[derive(Debug, Clone, PartialEq, Eq)]
pub enum LoadOutcome {
    /// There is no file at the path.
    Missing,
    /// The file exists and reading it failed.
    Unreadable { reason: String },
    /// The file was read and its contents do not parse as a plan.
    Unparsable { reason: String },
    /// The file parsed into this plan, not yet checked.
    Parsed { plan: Plan },
}

} // verus!
