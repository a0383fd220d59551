//! Vocabulary of the version-control client: how a reset reaches its target
//! and the sub-steps an update plan is made of.

use vstd::prelude::*;

verus! {

/// How a reset reaches its target.
#[derive(Debug, Clone, Copy, PartialEq, Eq)]
pub enum ResetType {
    Soft,
    Hard,
}

impl ResetType {
    /// The flag word handed to the version-control client.
    pub fn flag(&self) -> (r: &'static str)
        ensures
            *self is Soft ==> r@ == "soft"@,
            *self is Hard ==> r@ == "hard"@,
    {
        match self {
            ResetType::Soft => "soft",
            ResetType::Hard => "hard",
        }
    }
}

/// One version-control sub-step of an update plan, in execution order.  A
/// failing step ends the plan for that addon; later steps are skipped.
#[derive(Debug, Clone, PartialEq, Eq)]
pub enum GitStep {
    Fetch,
    Switch(String),
    Pull(bool),
    ResetHard(String),
}

} // verus!
