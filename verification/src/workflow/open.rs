//! Opening a window for an already-materialized worktree.

use vstd::prelude::*;
use vstd::string::*;

use crate::errors::WorkmuxError;
use crate::git::{find_worktree, spec_find_worktree, VcsState};
use crate::mux::{bumped, create_window, focus_window, window_exists, MuxState};
use crate::strutil::{basename, basename_of, seq_has_str};
use crate::workflow::context::WorkflowContext;
use crate::workflow::hooks::{hooks_run_count, spec_hooks_for, HookPhase};
use crate::workflow::types::{CreateResult, SetupOptions};

verus! {

/// Opens a window bound to an existing worktree and runs the post-create
/// hooks. The handle is the worktree's directory basename, so a branch
/// name resolves to the same window as its handle.
pub fn open(
    name: &str,
    context: &WorkflowContext,
    options: &SetupOptions,
    vcs: &VcsState,
    mux: &mut MuxState,
) -> (r: Result<CreateResult, WorkmuxError>)
    ensures
        ({
            let k = spec_find_worktree(vcs.worktrees@, name@);
            let path = vcs.worktrees@[k].path@;
            let branch = vcs.worktrees@[k].branch@;
            let h = basename_of(path);
            let full = context.prefix@ + h;
            &&& (r is Ok <==> old(mux).running && k >= 0 && !seq_has_str(old(mux).windows@, full))
            &&& (!old(mux).running ==> (r matches Err(e) && e
                matches WorkmuxError::CommandFailed(_)))
            &&& (old(mux).running && k < 0 ==> (r matches Err(e) && e
                matches WorkmuxError::NotFound(_)))
            &&& (old(mux).running && k >= 0 && seq_has_str(old(mux).windows@, full) ==> (r
                matches Err(e) && e matches WorkmuxError::AlreadyExists(_)))
            &&& (r is Err ==> *final(mux) == *old(mux))
            &&& (r is Ok ==> ({
                let prev = old(mux).windows@;
                let cur = final(mux).windows@;
                &&& cur.len() == prev.len() + 1
                &&& cur.take(prev.len() as int) == prev
                &&& cur.last()@ == full
                &&& final(mux).create_calls == bumped(old(mux).create_calls)
                &&& (options.focus_window ==> (final(mux).focused matches Some(f) && f@ == full))
                &&& (!options.focus_window ==> final(mux).focused == old(mux).focused)
            }))
            &&& (r matches Ok(res) ==> ({
                &&& res.branch_name@ == branch
                &&& res.worktree_path@ == path
                &&& res.base_branch is None
                &&& (options.run_hooks ==> res.post_create_hooks_run == spec_hooks_for(
                    context.config,
                    HookPhase::PostCreate,
                ).len())
                &&& (!options.run_hooks ==> res.post_create_hooks_run == 0)
            }))
        }),
{
    if !mux.running {
        return Err(WorkmuxError::CommandFailed(String::from_str("no multiplexer server")));
    }
    // The worktree must already exist; the name may be a handle or branch.
    let (worktree_path, branch_name) = match find_worktree(vcs, name) {
        Ok(pb) => pb,
        Err(e) => {
            return Err(e);
        },
    };
    // The handle is the directory name, whatever the user typed.
    let handle = basename(worktree_path.as_str());
    if window_exists(mux, context.prefix.as_str(), handle.as_str()) {
        return Err(WorkmuxError::AlreadyExists(handle));
    }
    match create_window(mux, context.prefix.as_str(), handle.as_str(), worktree_path.as_str()) {
        Ok(()) => {},
        Err(e) => {
            return Err(e);
        },
    }
    if options.focus_window {
        proof {
            let full = context.prefix@ + handle@;
            assert(mux.windows@[mux.windows@.len() - 1]@ == full);
            assert(seq_has_str(mux.windows@, full));
        }
        match focus_window(mux, context.prefix.as_str(), handle.as_str()) {
            Ok(()) => {},
            Err(e) => {
                return Err(e);
            },
        }
    }
    let hooks_run = hooks_run_count(&context.config, HookPhase::PostCreate, options.run_hooks);
    Ok(
        CreateResult {
            branch_name,
            worktree_path,
            base_branch: None,
            post_create_hooks_run: hooks_run,
        },
    )
}

} // verus!
