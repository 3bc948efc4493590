//! The immutable configuration snapshot consumed by one command invocation.

use vstd::prelude::*;
use vstd::string::*;

use crate::strutil::basename_of;

verus! {

/// How a handle is derived from a branch name when no explicit override is
/// given.
#[derive(Clone, Copy, Debug, PartialEq, Eq, Structural)]
pub enum WorktreeNaming {
    /// Keep the full branch path.
    Full,
    /// Keep only the last path segment.
    Basename,
}

/// The name a strategy derives from a branch name, before slugging.
pub open spec fn spec_derive_name(n: WorktreeNaming, branch: Seq<char>) -> Seq<char> {
    match n {
        WorktreeNaming::Full => branch,
        WorktreeNaming::Basename => basename_of(branch),
    }
}

impl WorktreeNaming {
    /// Applies the strategy to a branch name: `Full` keeps it, `Basename`
    /// takes the final path segment, tolerating a trailing separator.
    pub fn derive_name(&self, branch_name: &str) -> (r: String)
        ensures
            r@ == spec_derive_name(*self, branch_name@),
    {
        match self {
            WorktreeNaming::Full => String::from_str(branch_name),
            WorktreeNaming::Basename => crate::strutil::basename(branch_name),
        }
    }
}

/// Read-only configuration for one command: naming strategy, optional handle
/// prefix, optional main-branch override, window-name prefix, and the hook
/// command lists per lifecycle phase.
#[derive(Debug, Clone)]
pub struct Config {
    /// Strategy used by handle derivation.
    pub worktree_naming: WorktreeNaming,
    /// Prefix prepended to derived handles (not to explicit overrides).
    pub worktree_prefix: Option<String>,
    /// Main branch override; when absent the default branch is resolved from
    /// the repository.
    pub main_branch: Option<String>,
    /// Prefix prepended to window names.
    pub window_prefix: Option<String>,
    /// Commands announced and run before any worktree of the request
    /// exists; they use the invocation's working directory.
    pub announce_hooks: Vec<String>,
    /// Commands run after a worktree is created and its window opened.
    pub post_create_hooks: Vec<String>,
    /// Commands run before a worktree is torn down.
    pub pre_delete_hooks: Vec<String>,
}

impl Default for Config {
    /// Full naming, no prefixes, no overrides, no hooks.
    fn default() -> (c: Config)
        ensures
            c.worktree_naming == WorktreeNaming::Full,
            c.worktree_prefix is None,
            c.main_branch is None,
            c.window_prefix is None,
            c.announce_hooks@.len() == 0,
            c.post_create_hooks@.len() == 0,
            c.pre_delete_hooks@.len() == 0,
    {
        Config {
            worktree_naming: WorktreeNaming::Full,
            worktree_prefix: None,
            main_branch: None,
            window_prefix: None,
            announce_hooks: Vec::new(),
            post_create_hooks: Vec::new(),
            pre_delete_hooks: Vec::new(),
        }
    }
}

/// The window prefix a configuration yields: the configured one, or empty.
pub open spec fn spec_window_prefix(c: Config) -> Seq<char> {
    match c.window_prefix {
        Some(p) => p@,
        None => Seq::empty(),
    }
}

impl Config {
    /// The window-name prefix, defaulting to empty.
    pub fn window_prefix(&self) -> (r: String)
        ensures
            r@ == spec_window_prefix(*self),
    {
        match &self.window_prefix {
            Some(p) => p.clone(),
            None => String::new(),
        }
    }
}

} // verus!
