//! Metadata about the exact staged tree that a generator saw.

use vstd::prelude::*;

verus! {

/// How a context section was bounded.
#[derive(Clone, Copy, Debug, Default, PartialEq, Eq)]
pub struct Truncation {
    pub truncated: bool,
    pub original_code_points: usize,
    pub retained_code_points: usize,
}

/// Branch, staged tree and bounded diff text of the staged change.
#[derive(Clone, Debug, PartialEq, Eq)]
pub struct RepositoryContext {
    pub branch: String,
    pub staged_tree: String,
    pub stat: String,
    pub patch: String,
    pub stat_truncation: Truncation,
    pub patch_truncation: Truncation,
}

impl RepositoryContext {
    /// Whether either diff section was cut short.
    pub fn any_truncated(&self) -> (b: bool)
        ensures
            b == (self.stat_truncation.truncated || self.patch_truncation.truncated),
    {
        self.stat_truncation.truncated || self.patch_truncation.truncated
    }
}

} // verus!
