//! Rescuing uncommitted changes into a fresh worktree.

use vstd::prelude::*;

use crate::errors::WorkmuxError;
use crate::git::{has_uncommitted_changes, move_changes, spec_can_create_worktree, VcsState};
use crate::mux::MuxState;
use crate::strutil::{seq_has_str, vec_has_str};
use crate::workflow::context::WorkflowContext;
use crate::workflow::create::{create, spec_worktree_path};
use crate::workflow::types::{RescueOutcome, SetupOptions};

verus! {

/// Whether the worktree at `source` has anything to rescue.
pub open spec fn spec_has_changes(vcs: VcsState, source: Seq<char>) -> bool {
    seq_has_str(vcs.dirty_paths@, source) || seq_has_str(vcs.untracked_paths@, source)
}

/// Moves the uncommitted changes (and, when asked, the untracked files) of
/// the worktree at `source_path` into a newly created worktree/window pair,
/// leaving the source clean. A clean source is a no-op reported to the
/// caller, not an error, and creates nothing.
pub fn create_with_changes(
    branch_name: &str,
    handle: &str,
    source_path: &str,
    include_untracked: bool,
    options: &SetupOptions,
    context: &WorkflowContext,
    vcs: &mut VcsState,
    mux: &mut MuxState,
) -> (r: Result<RescueOutcome, WorkmuxError>)
    ensures
        ({
            let has_changes = spec_has_changes(*old(vcs), source_path@);
            let path = spec_worktree_path(*context, handle@);
            let create_branch = !seq_has_str(old(vcs).branches@, branch_name@);
            &&& (!has_changes ==> (r matches Ok(o) && o is NothingToMove))
            &&& (!has_changes ==> *final(vcs) == *old(vcs) && *final(mux) == *old(mux))
            &&& (has_changes ==> (r is Ok <==> old(mux).running && !seq_has_str(
                old(mux).windows@,
                context.prefix@ + handle@,
            ) && spec_can_create_worktree(
                *old(vcs),
                path,
                branch_name@,
                create_branch,
                None,
            )))
            &&& (r is Err ==> *final(vcs) == *old(vcs) && *final(mux) == *old(mux))
            &&& (has_changes && r is Ok ==> ({
                &&& final(vcs).worktrees@.len() == old(vcs).worktrees@.len() + 1
                &&& final(vcs).worktrees@.last().path@ == path
                &&& final(vcs).worktrees@.last().branch@ == branch_name@
                &&& !seq_has_str(final(vcs).staged_paths@, source_path@)
                &&& !seq_has_str(final(vcs).unstaged_paths@, source_path@)
                &&& (include_untracked ==> !seq_has_str(final(vcs).untracked_paths@, source_path@))
                &&& ((include_untracked || !seq_has_str(old(vcs).untracked_paths@, source_path@))
                    && path != source_path@ ==> !seq_has_str(final(vcs).dirty_paths@, source_path@))
                &&& (path != source_path@ ==> seq_has_str(final(vcs).dirty_paths@, path))
            }))
            &&& (has_changes ==> ((r matches Ok(o) && o is NothingToMove) ==> false))
        }),
{
    let has_untracked = vec_has_str(&vcs.untracked_paths, source_path);
    if !has_uncommitted_changes(vcs, source_path) && !has_untracked {
        return Ok(RescueOutcome::NothingToMove);
    }
    let result = match create(context, branch_name, handle, None, options, vcs, mux) {
        Ok(res) => res,
        Err(e) => {
            return Err(e);
        },
    };
    let ghost staged_mid = vcs.staged_paths@;
    let ghost unstaged_mid = vcs.unstaged_paths@;
    let ghost untracked_mid = vcs.untracked_paths@;
    let ghost dirty_mid = vcs.dirty_paths@;
    match move_changes(vcs, source_path, result.worktree_path.as_str(), include_untracked) {
        Ok(()) => {},
        Err(e) => {
            return Err(e);
        },
    }
    proof {
        crate::strutil::lemma_remove_str_absent(staged_mid, source_path@);
        crate::strutil::lemma_remove_str_absent(unstaged_mid, source_path@);
        crate::strutil::lemma_remove_str_absent(untracked_mid, source_path@);
        crate::strutil::lemma_remove_str_absent(dirty_mid, source_path@);
        let to = result.worktree_path@;
        let cur = vcs.dirty_paths@;
        let keeps = !include_untracked && seq_has_str(untracked_mid, source_path@);
        if cur.len() > 0 && cur[cur.len() - 1]@ == to {
            assert(seq_has_str(cur, to));
        }
        if !keeps && to != source_path@ {
            let cleared = crate::strutil::spec_remove_str(dirty_mid, source_path@);
            if seq_has_str(cleared, to) {
            } else {
                if seq_has_str(cur, source_path@) {
                    let i = choose|i: int|
                        0 <= i < cur.len() && #[trigger] cur[i]@ == source_path@;
                    if i < cleared.len() {
                        assert(cur.take(cleared.len() as int)[i] == cur[i]);
                        assert(cleared[i]@ == source_path@);
                    } else {
                        assert(cur[i]@ == to);
                    }
                }
            }
        }
    }
    Ok(
        RescueOutcome::Moved {
            branch_name: result.branch_name,
            worktree_path: result.worktree_path,
        },
    )
}

} // verus!
