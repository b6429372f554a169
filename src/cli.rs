//! The commands the tool offers.

use vstd::prelude::*;

verus! {

/// How many days a cached environment is kept by `clean`.
pub const CLEAN_MAX_AGE_DAYS: u64 = 7;

/// A command of the tool.
#[derive(Debug, Clone)]
pub enum Commands {
    /// Enter a sandbox, optionally in the worktree session of a branch.
    Enter { session: Option<String> },
    /// Run one command in a sandbox.
    Exec { session: Option<String>, command: String, args: Vec<String> },
    /// List the worktree sessions.
    List,
    /// Delete stale cached environments.
    Clean,
}

} // verus!
