//! Error kinds of the engine.
//!
//! Precondition violations (`ProtectedResource`, `DirtyWorktree`,
//! `AlreadyExists`) are detected before any mutation; `CommandFailed` wraps a
//! failure of an underlying tool invocation.

use vstd::prelude::*;

verus! {

/// One error kind per way an engine operation can refuse or fail.
/// The `String` payload names the target handle or branch.
#[derive(Debug, Clone, PartialEq, Eq)]
pub enum WorkmuxError {
    /// Invoked outside a recognized repository.
    NotARepository,
    /// The default branch could not be determined; configuration is needed.
    ConfigurationRequired,
    /// A derived or explicit handle failed validation.
    InvalidHandle(String),
    /// Conflicting multi-spec expansion flags.
    AmbiguousExpansionRequest(String),
    /// A creation request expanded to no specs at all.
    EmptyExpansionResult,
    /// A worktree or window for the handle already exists.
    AlreadyExists(String),
    /// No worktree matches the given handle or branch.
    NotFound(String),
    /// The operation would touch the main worktree or the main branch.
    ProtectedResource(String),
    /// Uncommitted changes block a destructive operation.
    DirtyWorktree(String),
    /// An underlying tool invocation failed.
    CommandFailed(String),
    /// A remote branch reference was not of the form `<remote>/<branch>`.
    InvalidRemoteSpec(String),
    /// Template substitution met a variable with no value.
    UndefinedVariable(String),
    /// A matrix row entry was not of the form `key=value`.
    InvalidForeachRow(String),
}

} // verus!
