//! What a comment is attached to.

use vstd::prelude::*;

verus! {

/// The kind of item a comment belongs to.
#[derive(Debug, Clone, Copy, PartialEq, Eq, Structural)]
pub enum CommentType {
    PullRequest,
    Task,
    Issue,
}

impl Default for CommentType {
    fn default() -> (r: Self)
        ensures
            r == CommentType::PullRequest,
    {
        CommentType::PullRequest
    }
}

} // verus!
