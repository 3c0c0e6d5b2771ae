//! Options of a pipeline run and the policy for the search count.

use vstd::prelude::*;

verus! {

/// Options of one pipeline run: how many projects to search for and
/// which programming language to search in.
pub struct Options {
    /// Number of projects to search for.
    pub count: Option<usize>,
    /// Name of the programming language.
    pub language: String,
}

/// Number of repositories searched for when no count is given.
pub const DEFAULT_COUNT: usize = 10;

/// Smallest number of repositories a search may ask for.
pub const MIN_COUNT: usize = 1;

/// The count a search uses for a requested count: the requested count
/// raised to the minimum, or the default when none was requested.
pub open spec fn spec_resolved_count(count: Option<usize>) -> int {
    match count {
        Option::None => DEFAULT_COUNT as int,
        Option::Some(c) => if c < MIN_COUNT {
            MIN_COUNT as int
        } else {
            c as int
        },
    }
}

/// The number of repositories to fetch for a requested count.
pub fn resolve_count(count: &Option<usize>) -> (n: usize)
    ensures
        n == spec_resolved_count(*count),
{
    match count {
        None => DEFAULT_COUNT,
        Some(c) => if *c < MIN_COUNT {
            MIN_COUNT
        } else {
            *c
        },
    }
}

} // verus!
