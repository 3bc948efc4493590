//! Hook planning: which configured commands a lifecycle phase runs.
//!
//! Hooks are best-effort environment setup: a failing hook never aborts the
//! surrounding operation, so the engine only decides which commands run and
//! in which working directory; issuing them is the front end's job.

use vstd::prelude::*;

use crate::config::Config;
use crate::strutil::clone_string_vec;

verus! {

/// A lifecycle phase with configured hook commands.
#[derive(Clone, Copy, Debug, PartialEq, Eq, Structural)]
pub enum HookPhase {
    /// Before any worktree of the request exists.
    Announce,
    /// After a worktree is created and its window opened.
    PostCreate,
    /// Before a worktree is torn down.
    PreDelete,
}

/// The commands a phase runs under a configuration.
pub open spec fn spec_hooks_for(config: Config, phase: HookPhase) -> Seq<String> {
    match phase {
        HookPhase::Announce => config.announce_hooks@,
        HookPhase::PostCreate => config.post_create_hooks@,
        HookPhase::PreDelete => config.pre_delete_hooks@,
    }
}

/// The hook commands to issue for a phase, in configuration order.
pub fn hooks_for_phase(config: &Config, phase: HookPhase) -> (r: Vec<String>)
    ensures
        r@ == spec_hooks_for(*config, phase),
{
    match phase {
        HookPhase::Announce => clone_string_vec(&config.announce_hooks),
        HookPhase::PostCreate => clone_string_vec(&config.post_create_hooks),
        HookPhase::PreDelete => clone_string_vec(&config.pre_delete_hooks),
    }
}

/// The working directory a phase's hooks run in: announce-phase hooks run
/// before the target worktree exists and so use the invocation's own
/// directory; every other phase is scoped to the target worktree.
pub fn hook_workdir<'a>(phase: HookPhase, worktree_path: &'a str, invocation_dir: &'a str) -> (r:
    &'a str)
    ensures
        phase is Announce ==> r@ == invocation_dir@,
        !(phase is Announce) ==> r@ == worktree_path@,
{
    match phase {
        HookPhase::Announce => invocation_dir,
        HookPhase::PostCreate => worktree_path,
        HookPhase::PreDelete => worktree_path,
    }
}

/// How many hook commands an operation issues for a phase: all of them
/// when hooks are enabled, none during a pass that must not run them.
pub fn hooks_run_count(config: &Config, phase: HookPhase, run_hooks: bool) -> (r: usize)
    ensures
        run_hooks ==> r == spec_hooks_for(*config, phase).len(),
        !run_hooks ==> r == 0,
{
    if run_hooks {
        hooks_for_phase(config, phase).len()
    } else {
        0
    }
}

} // verus!
