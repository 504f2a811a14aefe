//! The kinds of issues.

use vstd::prelude::*;

verus! {

/// What an issue is about.
#[derive(Debug, Clone, Copy, PartialEq, Eq, Structural)]
pub enum IssueType {
    Bug,
    Feature,
    Task,
}

impl Default for IssueType {
    fn default() -> (r: Self)
        ensures
            r == IssueType::Bug,
    {
        IssueType::Bug
    }
}

} // verus!
