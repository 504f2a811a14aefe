//! The technology stacks a project can be built on.

use vstd::prelude::*;

verus! {

/// A project's technology stack: a single stack, or a Rust back end with a
/// Vue or React front end.
#[derive(Debug, Clone, Copy, PartialEq, Eq, Structural)]
pub enum TechStack {
    Rust,
    Vue,
    React,
    FullstackRustVue,
    FullstackRustReact,
}

impl Default for TechStack {
    fn default() -> (r: Self)
        ensures
            r == TechStack::Rust,
    {
        TechStack::Rust
    }
}

/// The name of a stack as `{:?}` renders it.
pub open spec fn tech_stack_debug_name(t: TechStack) -> Seq<char> {
    match t {
        TechStack::Rust => "Rust"@,
        TechStack::Vue => "Vue"@,
        TechStack::React => "React"@,
        TechStack::FullstackRustVue => "FullstackRustVue"@,
        TechStack::FullstackRustReact => "FullstackRustReact"@,
    }
}

impl TechStack {
    /// The stack's name as `{:?}` renders it, the form in which prompts and
    /// context files name it.
    pub fn debug_name(&self) -> (r: &'static str)
        ensures
            r@ == tech_stack_debug_name(*self),
    {
        match self {
            TechStack::Rust => "Rust",
            TechStack::Vue => "Vue",
            TechStack::React => "React",
            TechStack::FullstackRustVue => "FullstackRustVue",
            TechStack::FullstackRustReact => "FullstackRustReact",
        }
    }
}

} // verus!
