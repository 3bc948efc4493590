//! The lifecycle operations over a worktree/window pair.
//!
//! Each operation follows the same shape: resolve the target, validate the
//! preconditions before any mutation, mutate the modelled collaborator
//! state, and report. Teardown runs the version-control side first and
//! touches the window side only once that succeeded.

pub mod cleanup;
pub mod context;
pub mod create;
pub mod hooks;
pub mod list;
pub mod merge;
pub mod open;
pub mod remove;
pub mod rescue;
pub mod types;
