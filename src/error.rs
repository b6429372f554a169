//! The errors of the library.

use vstd::prelude::*;

verus! {

/// What can go wrong while detecting, building, caching or isolating an
/// environment. Paths are held as strings.
#[derive(Debug, Clone)]
pub enum SandboxError {
    /// Neither definition file is in the directory.
    NoEnvironmentFound(String),
    /// A version-control operation failed.
    GitError(String),
    /// The isolation engine is missing, or materialization exited non-zero.
    SandboxSetupError(String),
    /// The host system is neither supported variant.
    UnsupportedOS(String),
    /// A session could not be set up.
    SessionError(String),
    /// A filesystem operation that is not otherwise classified failed.
    IoError(String),
    /// The state directories could not be determined.
    ConfigError(String),
    /// The materialization binary is not on the search path.
    BinaryNotFound(String),
    /// The materialization binary resolves outside the trusted store.
    BinaryNotInNixStore { binary: String, path: String },
    /// A cache operation failed; `operation` names it.
    CacheError { operation: String, path: String, source: String },
}

} // verus!
