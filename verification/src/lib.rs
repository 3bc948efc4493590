//! Worktree lifecycle and naming engine.
//!
//! The crate manages disposable per-task development environments, each a
//! pair of a version-control worktree and a multiplexer window bound to it.
//! A creation request is expanded into one or more worktree specifications,
//! each gets a stable filesystem- and window-safe handle, and lifecycle
//! operations (create, open, remove, merge, rescue) drive the state of the
//! pair while protecting the main checkout and uncommitted work.
//!
//! The version-control and multiplexer collaborators are modelled as
//! explicit state values ([`git::VcsState`], [`mux::MuxState`]); every
//! decision and transition of the engine is verified against that model.
//! A thin front end binds the model to the real tools.

pub mod config;
pub mod docs_text;
pub mod errors;
pub mod git;
pub mod mux;
pub mod naming;
pub mod status;
pub mod strutil;
pub mod template;
pub mod workflow;
