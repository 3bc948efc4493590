//! Merging a branch into the main branch and tearing its worktree down.

use vstd::prelude::*;
use vstd::string::*;

use crate::errors::WorkmuxError;
use crate::git::{
    commit_staged_changes, first_wt_with_branch, get_worktree_path, has_staged_changes,
    has_uncommitted_changes, merge_in_worktree, merge_squash_in_worktree, rebase_branch_onto_base,
    spec_remove_wt_at, VcsState,
};
use crate::mux::MuxState;
use crate::strutil::{basename, basename_of, seq_has_str, spec_remove_str, str_eq, vec_has_str};
use crate::workflow::cleanup::{
    cleanup, navigate_to_target_and_close, spec_cleanup_ok, spec_navigate_ok,
};
use crate::workflow::context::WorkflowContext;
use crate::workflow::types::MergeResult;

verus! {

/// Whether the worktree at `path` still blocks a merge after staged
/// changes were committed: unstaged changes or untracked files keep it
/// dirty; without staged changes its plain dirtiness counts.
pub open spec fn spec_merge_dirty(vcs: VcsState, path: Seq<char>) -> bool {
    if seq_has_str(vcs.staged_paths@, path) {
        (seq_has_str(vcs.unstaged_paths@, path) || seq_has_str(vcs.untracked_paths@, path))
            && seq_has_str(vcs.dirty_paths@, path)
    } else {
        seq_has_str(vcs.dirty_paths@, path)
    }
}

/// Merges `branch_name` into the main branch inside the main worktree and
/// then tears the branch's worktree down as a removal would.
///
/// Staged changes in the source worktree are committed first; remaining
/// uncommitted changes block the merge unless ignored. A squash merge
/// leaves the combined changes staged and uncommitted in the main worktree
/// for manual review. A merge or rebase conflict is fatal and performs no
/// teardown. The main branch and main worktree are protected targets.
pub fn merge(
    branch_name: &str,
    ignore_uncommitted: bool,
    delete_remote: bool,
    rebase: bool,
    squash: bool,
    context: &WorkflowContext,
    vcs: &mut VcsState,
    mux: &mut MuxState,
) -> (r: Result<MergeResult, WorkmuxError>)
    ensures
        ({
            let k = first_wt_with_branch(old(vcs).worktrees@, branch_name@);
            let path = old(vcs).worktrees@[k].path@;
            let h = basename_of(path);
            let staged0 = seq_has_str(old(vcs).staged_paths@, path);
            let protected = branch_name@ == context.main_branch@ || path
                == context.main_worktree_root@;
            let precheck_ok = k >= 0 && !protected && !(staged0 && old(vcs).fail_commit) && !(
            spec_merge_dirty(*old(vcs), path) && !ignore_uncommitted);
            &&& (r is Ok <==> precheck_ok && !old(vcs).fail_merge && spec_cleanup_ok(
                *old(vcs),
                branch_name@,
                path,
                true,
                false,
                delete_remote,
            ) && spec_navigate_ok(*old(mux), context.prefix@, context.main_branch@, h))
            &&& (k < 0 ==> (r matches Err(e) && e matches WorkmuxError::NotFound(_)) && *final(vcs)
                == *old(vcs))
            &&& (k >= 0 && protected ==> (r matches Err(e) && e
                matches WorkmuxError::ProtectedResource(_)) && *final(vcs) == *old(vcs))
            &&& (k >= 0 && !protected && !(staged0 && old(vcs).fail_commit) && spec_merge_dirty(
                *old(vcs),
                path,
            ) && !ignore_uncommitted ==> (r matches Err(e) && e
                matches WorkmuxError::DirtyWorktree(_)))
            &&& (precheck_ok && old(vcs).fail_merge ==> (r matches Err(e) && e
                matches WorkmuxError::CommandFailed(_)) && final(vcs).worktrees == old(vcs).worktrees
                && final(vcs).branches == old(vcs).branches)
            &&& (r is Err ==> *final(mux) == *old(mux))
            &&& (r is Ok ==> ({
                &&& final(vcs).worktrees@ == spec_remove_wt_at(old(vcs).worktrees@, path)
                &&& (!delete_remote ==> final(vcs).branches@ == spec_remove_str(
                    old(vcs).branches@,
                    branch_name@,
                ))
                &&& (squash && path != context.main_worktree_root@ ==> seq_has_str(
                    final(vcs).staged_paths@,
                    context.main_worktree_root@,
                ))
                &&& !seq_has_str(final(mux).windows@, context.prefix@ + h)
                &&& final(mux).close_calls == crate::mux::bumped(old(mux).close_calls)
            }))
            &&& (r matches Ok(res) ==> ({
                &&& res.branch_merged@ == branch_name@
                &&& res.main_branch@ == context.main_branch@
                &&& res.had_staged_changes == staged0
            }))
        }),
{
    // Resolve the branch's worktree.
    let worktree_path = match get_worktree_path(vcs, branch_name) {
        Ok(p) => p,
        Err(e) => {
            return Err(WorkmuxError::NotFound(e.0));
        },
    };
    // The main branch cannot be merged away, and the main worktree cannot
    // be torn down.
    if str_eq(branch_name, context.main_branch.as_str()) {
        return Err(WorkmuxError::ProtectedResource(worktree_path));
    }
    if str_eq(worktree_path.as_str(), context.main_worktree_root.as_str()) {
        return Err(WorkmuxError::ProtectedResource(worktree_path));
    }
    // Staged changes are work ready to keep: commit them first.
    let had_staged_changes = has_staged_changes(vcs, worktree_path.as_str());
    if had_staged_changes {
        match commit_staged_changes(vcs, worktree_path.as_str()) {
            Ok(()) => {},
            Err(e) => {
                return Err(e);
            },
        }
        proof {
            crate::strutil::lemma_remove_str_absent(old(vcs).dirty_paths@, worktree_path@);
        }
    }
    // Whatever is still uncommitted blocks the merge unless ignored.
    if has_uncommitted_changes(vcs, worktree_path.as_str()) && !ignore_uncommitted {
        return Err(WorkmuxError::DirtyWorktree(worktree_path));
    }
    // The merge itself happens inside the main worktree; a conflict is
    // fatal and surfaced as it is, with no teardown attempted.
    if squash {
        let ghost prev_staged = vcs.staged_paths@;
        match merge_squash_in_worktree(vcs, context.main_worktree_root.as_str(), branch_name) {
            Ok(()) => {},
            Err(e) => {
                return Err(e);
            },
        }
        proof {
            let mr = context.main_worktree_root@;
            if !seq_has_str(prev_staged, mr) {
                assert(vcs.staged_paths@[vcs.staged_paths@.len() - 1]@ == mr);
            }
            assert(seq_has_str(vcs.staged_paths@, mr));
        }
    } else if rebase {
        match rebase_branch_onto_base(
            vcs,
            worktree_path.as_str(),
            context.main_branch.as_str(),
        ) {
            Ok(()) => {},
            Err(e) => {
                return Err(e);
            },
        }
        match merge_in_worktree(vcs, context.main_worktree_root.as_str(), branch_name) {
            Ok(()) => {},
            Err(e) => {
                return Err(e);
            },
        }
    } else {
        match merge_in_worktree(vcs, context.main_worktree_root.as_str(), branch_name) {
            Ok(()) => {},
            Err(e) => {
                return Err(e);
            },
        }
    }
    // Same teardown as a removal; the branch's work is merged, so its
    // deletion is forced.
    let handle = basename(worktree_path.as_str());
    let cleanup_result = match cleanup(
        context,
        branch_name,
        handle.as_str(),
        worktree_path.as_str(),
        true,
        false,
        delete_remote,
        vcs,
    ) {
        Ok(cr) => cr,
        Err(e) => {
            return Err(e);
        },
    };
    match navigate_to_target_and_close(
        context.prefix.as_str(),
        context.main_branch.as_str(),
        handle.as_str(),
        &cleanup_result,
        context.main_worktree_root.as_str(),
        mux,
    ) {
        Ok(()) => {},
        Err(e) => {
            return Err(e);
        },
    }
    Ok(
        MergeResult {
            branch_merged: String::from_str(branch_name),
            main_branch: context.main_branch.clone(),
            had_staged_changes,
        },
    )
}

} // verus!
