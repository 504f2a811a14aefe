//! How urgent a task is.

use vstd::prelude::*;

verus! {

/// Priority of a task, from lowest to highest.
#[derive(Debug, Clone, Copy, PartialEq, Eq, Structural, Hash, PartialOrd, Ord)]
pub enum Priority {
    Low,
    Medium,
    High,
    Critical,
}

impl Default for Priority {
    fn default() -> (r: Self)
        ensures
            r == Priority::Low,
    {
        Priority::Low
    }
}

/// The name of a priority as `{:?}` renders it.
pub open spec fn priority_debug_name(p: Priority) -> Seq<char> {
    match p {
        Priority::Low => "Low"@,
        Priority::Medium => "Medium"@,
        Priority::High => "High"@,
        Priority::Critical => "Critical"@,
    }
}

impl Priority {
    /// The priority's name as `{:?}` renders it, the form in which prompts
    /// name it.
    pub fn debug_name(&self) -> (r: &'static str)
        ensures
            r@ == priority_debug_name(*self),
    {
        match self {
            Priority::Low => "Low",
            Priority::Medium => "Medium",
            Priority::High => "High",
            Priority::Critical => "Critical",
        }
    }
}

} // verus!
