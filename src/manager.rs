use vstd::prelude::*;
use vstd::string::*;

use crate::error::{LoadOutcome, PlanError};
use crate::plan::Plan;
use crate::validate::{is_first_violation, plan_valid};

verus! {

/// The name of a plan file inside a project directory.
pub const PLAN_FILE_NAME: &'static str = "plan.yaml";

/// The path of the plan file in directory `dir`, with `/` as separator: the
/// file name alone for an empty directory, and no second separator when
/// `dir` already ends in one.
pub open spec fn plan_path(dir: Seq<char>) -> Seq<char> {
    if dir.len() == 0 {
        PLAN_FILE_NAME@
    } else if dir.last() == '/' {
        dir + PLAN_FILE_NAME@
    } else {
        dir + "/"@ + PLAN_FILE_NAME@
    }
}

/// What loading yields for the file at `path` given what reading and
/// parsing it found: the plan when it parsed and is valid, else the error
/// for the first step that failed.
pub open spec fn load_result_ok(path: Seq<char>, outcome: LoadOutcome, r: Result<Plan, PlanError>) -> bool {
    match outcome {
        LoadOutcome::Missing => r matches Err(PlanError::NotFound { path: p }) && p@ == path,
        LoadOutcome::Unreadable { reason } => r matches Err(PlanError::ReadError { path: p, reason: e })
            && p@ == path && e == reason,
        LoadOutcome::Unparsable { reason } => r matches Err(PlanError::ParseError { path: p, reason: e })
            && p@ == path && e == reason,
        LoadOutcome::Parsed { plan } => if plan_valid(plan) {
            r == Ok::<Plan, PlanError>(plan)
        } else {
            r matches Err(PlanError::ValidationError { path: p, violation })
                && p@ == path && is_first_violation(plan, violation)
        },
    }
}

/// Entry point for finding, loading, checking and rendering plans.
pub struct PlanManager;

impl PlanManager {
    /// The path of the plan file in directory `dir`.
    pub fn plan_path_in_dir(dir: &str) -> (r: String)
        ensures
            r@ == plan_path(dir@),
    {
        let n = dir.unicode_len();
        if n == 0 {
            String::from_str(PLAN_FILE_NAME)
        } else if dir.get_char(n - 1) == '/' {
            let mut path = String::from_str(dir);
            path.append(PLAN_FILE_NAME);
            path
        } else {
            let mut path = String::from_str(dir);
            path.append("/");
            path.append(PLAN_FILE_NAME);
            path
        }
    }

    /// Turns what reading and parsing the file at `path` found into the
    /// loaded plan, which is never returned unless it is valid, or into the
    /// error of the first step that failed.
    pub fn finish_load(path: &str, outcome: LoadOutcome) -> (r: Result<Plan, PlanError>)
        ensures
            load_result_ok(path@, outcome, r),
            r is Ok <==> (outcome matches LoadOutcome::Parsed { plan } && plan_valid(plan)),
            r matches Ok(p) ==> plan_valid(p),
    {
        match outcome {
            LoadOutcome::Missing => Err(PlanError::NotFound { path: String::from_str(path) }),
            LoadOutcome::Unreadable { reason } => Err(
                PlanError::ReadError { path: String::from_str(path), reason },
            ),
            LoadOutcome::Unparsable { reason } => Err(
                PlanError::ParseError { path: String::from_str(path), reason },
            ),
            LoadOutcome::Parsed { plan } => match Self::validate_plan(&plan) {
                Ok(()) => Ok(plan),
                Err(violation) => Err(
                    PlanError::ValidationError { path: String::from_str(path), violation },
                ),
            },
        }
    }

    /// Loads the plan of directory `dir`, given what reading and parsing its
    /// plan file (at `plan_path_in_dir(dir)`) found; errors name that path.
    pub fn load_plan_from_dir(dir: &str, outcome: LoadOutcome) -> (r: Result<Plan, PlanError>)
        ensures
            load_result_ok(plan_path(dir@), outcome, r),
            r is Ok <==> (outcome matches LoadOutcome::Parsed { plan } && plan_valid(plan)),
            r matches Ok(p) ==> plan_valid(p),
    {
        let path = Self::plan_path_in_dir(dir);
        Self::finish_load(path.as_str(), outcome)
    }
}

} // verus!
