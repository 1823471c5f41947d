use vstd::prelude::*;

verus! {

/// One named unit of required functionality, with free-text guidance on
/// how to implement it.
#[derive(Debug, Clone, PartialEq, Eq)]
pub struct PlanBehavior {
    /// Identifier, unique within the owning plan.
    pub id: String,
    /// Human-readable name.
    pub name: String,
    /// Instructions for implementing the behavior.
    pub behavior: String,
}

/// Metadata of the project that a plan describes.
#[derive(Debug, Clone, PartialEq, Eq)]
pub struct ProjectInfo {
    /// Title of the project.
    pub title: String,
    /// Description of the project.
    pub description: String,
    /// Primary programming language; see `default_language`.
    pub language: String,
}

/// A whole application plan: the project and its behaviors, in order.
#[derive(Debug, Clone, PartialEq, Eq)]
pub struct Plan {
    /// Project metadata.
    pub project: ProjectInfo,
    /// The behaviors, numbered in this order when rendered.
    pub behaviors: Vec<PlanBehavior>,
}

/// The language a project has when its document does not name one.
pub open spec fn default_language_text() -> Seq<char> {
    "haskell"@
}

/// The language assumed for a project whose document names none.
pub fn default_language() -> (r: String)
    ensures
        r@ == default_language_text(),
{
    String::from_str("haskell")
}

} // verus!
