//! The resolved, read-only session state built once per invocation.

use vstd::prelude::*;

use crate::config::{spec_window_prefix, Config};
use crate::errors::WorkmuxError;
use crate::git::{
    get_default_branch, get_main_worktree_root, get_repo_root, is_git_repo, spec_default_branch,
    VcsState,
};

verus! {

/// Resolved session state: repository root, main worktree root, main
/// branch, window prefix and the configuration. Never mutated after
/// construction.
#[derive(Debug, Clone)]
pub struct WorkflowContext {
    /// Root of the repository.
    pub repo_root: String,
    /// Root of the main (non-linked) worktree.
    pub main_worktree_root: String,
    /// The main branch, from configuration or resolved from the repository.
    pub main_branch: String,
    /// Window-name prefix.
    pub prefix: String,
    /// The configuration snapshot.
    pub config: Config,
}

/// When context construction succeeds: inside a repository with a main
/// worktree, and a main branch determinable from configuration or state.
pub open spec fn spec_context_ok(config: Config, vcs: VcsState) -> bool {
    &&& vcs.in_repo
    &&& vcs.worktrees@.len() > 0
    &&& (config.main_branch is Some || spec_default_branch(vcs) is Some)
}

/// The main branch a context resolves: the configured override, else the
/// repository's default branch.
pub open spec fn spec_context_main_branch(config: Config, vcs: VcsState) -> Seq<char> {
    match config.main_branch {
        Some(b) => b@,
        None => match spec_default_branch(vcs) {
            Some(b) => b,
            None => Seq::empty(),
        },
    }
}

impl WorkflowContext {
    /// Builds the session state, failing fast outside a repository and
    /// with a configuration-needed error when no main branch can be named.
    pub fn new(config: Config, vcs: &VcsState) -> (r: Result<WorkflowContext, WorkmuxError>)
        ensures
            r is Ok <==> spec_context_ok(config, *vcs),
            r matches Ok(c) ==> ({
                &&& c.repo_root@ == vcs.repo_root@
                &&& c.main_worktree_root@ == vcs.worktrees@[0].path@
                &&& c.main_branch@ == spec_context_main_branch(config, *vcs)
                &&& c.prefix@ == spec_window_prefix(config)
                &&& c.config == config
            }),
            !vcs.in_repo ==> r == Err::<WorkflowContext, WorkmuxError>(WorkmuxError::NotARepository),
            r matches Err(e) ==> (e == WorkmuxError::NotARepository || e
                matches WorkmuxError::NotFound(_) || e == WorkmuxError::ConfigurationRequired),
    {
        if !is_git_repo(vcs) {
            return Err(WorkmuxError::NotARepository);
        }
        let repo_root = match get_repo_root(vcs) {
            Ok(p) => p,
            Err(e) => {
                return Err(e);
            },
        };
        let main_worktree_root = match get_main_worktree_root(vcs) {
            Ok(p) => p,
            Err(e) => {
                return Err(e);
            },
        };
        let main_branch = match &config.main_branch {
            Some(b) => b.clone(),
            None => match get_default_branch(vcs) {
                Ok(b) => b,
                Err(e) => {
                    return Err(e);
                },
            },
        };
        let prefix = config.window_prefix();
        Ok(WorkflowContext { repo_root, main_worktree_root, main_branch, prefix, config })
    }
}

} // verus!
