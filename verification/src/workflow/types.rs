//! Result and option types shared by the lifecycle operations.

use vstd::prelude::*;

verus! {

/// What parts of environment setup an operation should perform.
#[derive(Debug, Clone)]
pub struct SetupOptions {
    /// Run the configured post-create hooks.
    pub run_hooks: bool,
    /// Perform configured file operations.
    pub run_file_ops: bool,
    /// Run configured pane commands.
    pub run_pane_cmds: bool,
    /// Switch the user's view to the new window.
    pub focus_window: bool,
}

impl SetupOptions {
    /// Options with the given toggles; the new window is focused.
    pub fn new(run_hooks: bool, run_file_ops: bool, run_pane_cmds: bool) -> (r: SetupOptions)
        ensures
            r.run_hooks == run_hooks,
            r.run_file_ops == run_file_ops,
            r.run_pane_cmds == run_pane_cmds,
            r.focus_window,
    {
        SetupOptions { run_hooks, run_file_ops, run_pane_cmds, focus_window: true }
    }
}

/// Outcome of materializing one worktree/window pair.
#[derive(Debug, Clone)]
pub struct CreateResult {
    /// Branch the new worktree is bound to.
    pub branch_name: String,
    /// Directory of the new worktree.
    pub worktree_path: String,
    /// Base the branch was created from, when one was given.
    pub base_branch: Option<String>,
    /// How many post-create hook commands were issued.
    pub post_create_hooks_run: usize,
}

/// Outcome of removing a worktree.
#[derive(Debug, Clone)]
pub struct RemoveResult {
    /// Branch whose worktree was removed.
    pub branch_removed: String,
}

/// Outcome of merging a branch and tearing its worktree down.
#[derive(Debug, Clone)]
pub struct MergeResult {
    /// The branch that was merged.
    pub branch_merged: String,
    /// The branch it was merged into.
    pub main_branch: String,
    /// Whether staged changes were committed before merging.
    pub had_staged_changes: bool,
}

/// One row of the listing: a worktree, its branch and status flags.
#[derive(Debug, Clone)]
pub struct WorktreeInfo {
    /// Branch checked out in the worktree.
    pub branch: String,
    /// Directory of the worktree.
    pub path: String,
    /// Whether a multiplexer window for its handle exists.
    pub has_tmux: bool,
    /// Whether the branch has commits not merged into the merge base.
    pub has_unmerged: bool,
}

/// Outcome of a rescue: either there was nothing to move, or a new pair
/// received the uncommitted changes.
#[derive(Debug, Clone)]
pub enum RescueOutcome {
    /// The source worktree was already clean; nothing was created.
    NothingToMove,
    /// The changes were moved into a newly created worktree.
    Moved {
        /// Branch of the new worktree.
        branch_name: String,
        /// Directory of the new worktree.
        worktree_path: String,
    },
}

} // verus!
