//! Removing a worktree without merging.

use vstd::prelude::*;
use vstd::string::*;

use crate::errors::WorkmuxError;
use crate::git::{
    bumped, find_worktree, get_default_branch, get_merge_base, get_unmerged_branches,
    has_uncommitted_changes, spec_default_branch, spec_find_worktree, spec_merge_base,
    spec_remove_wt_at, VcsState,
};
use crate::mux::MuxState;
use crate::strutil::{seq_has_str, spec_remove_str, str_eq, vec_has_str};
use crate::workflow::cleanup::{
    cleanup, navigate_to_target_and_close, spec_cleanup_ok, spec_navigate_ok,
};
use crate::workflow::context::WorkflowContext;
use crate::workflow::types::RemoveResult;

verus! {

/// Everything `remove` checks before it mutates: a worktree resolves from
/// the handle, it is neither the main worktree nor on the main branch, and
/// uncommitted changes block the removal unless forced or the directory is
/// already gone.
pub open spec fn spec_remove_precheck(
    vcs: VcsState,
    context: WorkflowContext,
    handle: Seq<char>,
    force: bool,
) -> bool {
    let k = spec_find_worktree(vcs.worktrees@, handle);
    let path = vcs.worktrees@[k].path@;
    let branch = vcs.worktrees@[k].branch@;
    &&& k >= 0
    &&& path != context.main_worktree_root@
    &&& branch != context.main_branch@
    &&& !(!seq_has_str(vcs.missing_paths@, path) && seq_has_str(vcs.dirty_paths@, path) && !force)
}

/// Forcing a removal bypasses the dirty-worktree gate: whenever the
/// handle resolves and neither the main worktree nor the main branch is
/// the target, the prechecks pass with `force`, whatever uncommitted
/// changes the worktree holds.
pub proof fn lemma_force_bypasses_dirty_gate(
    vcs: VcsState,
    context: WorkflowContext,
    handle: Seq<char>,
)
    requires
        spec_find_worktree(vcs.worktrees@, handle) >= 0,
        vcs.worktrees@[spec_find_worktree(vcs.worktrees@, handle)].path@
            != context.main_worktree_root@,
        vcs.worktrees@[spec_find_worktree(vcs.worktrees@, handle)].branch@ != context.main_branch@,
    ensures
        spec_remove_precheck(vcs, context, handle, true),
{
}

/// What the caller should do next after the removal-safety checks.
#[derive(Debug, Clone)]
pub enum RemovalDecision {
    /// Safe to proceed; the payload is the effective force flag.
    Proceed(bool),
    /// The branch has unmerged commits: ask the user before proceeding
    /// with force.
    ConfirmUnmerged,
}

/// Fails when the worktree directory still exists and holds uncommitted
/// changes.
pub fn check_uncommitted_changes(vcs: &VcsState, worktree_path: &str) -> (r: Result<
    (),
    WorkmuxError,
>)
    ensures
        r is Ok <==> !(!seq_has_str(vcs.missing_paths@, worktree_path@) && seq_has_str(
            vcs.dirty_paths@,
            worktree_path@,
        )),
        r matches Err(e) ==> e matches WorkmuxError::DirtyWorktree(_),
{
    let on_disk = !vec_has_str(&vcs.missing_paths, worktree_path);
    if on_disk && has_uncommitted_changes(vcs, worktree_path) {
        return Err(WorkmuxError::DirtyWorktree(
            String::from_str(worktree_path),
        ));
    }
    Ok(())
}

/// Whether deleting the branch needs a confirmation for unmerged commits:
/// the merge base of the default branch (or `main` when none is known)
/// exists and the branch is recorded as not merged into it.
pub open spec fn spec_needs_unmerged_confirmation(vcs: VcsState, branch: Seq<char>) -> bool {
    let m = match spec_default_branch(vcs) {
        Some(m) => m,
        None => "main"@,
    };
    let base = spec_merge_base(vcs, m);
    seq_has_str(vcs.branches@, base) && seq_has_str(vcs.unmerged@, branch)
}

/// Validates whether removing the worktree and branch is safe: forced
/// removal always proceeds; uncommitted changes otherwise block; a branch
/// with unmerged commits asks for a confirmation before it is deleted.
pub fn validate_removal_safety(
    handle: &str,
    worktree_path: &str,
    branch_name: &str,
    force: bool,
    keep_branch: bool,
    vcs: &VcsState,
) -> (r: Result<RemovalDecision, WorkmuxError>)
    ensures
        force ==> (r matches Ok(d) && d matches RemovalDecision::Proceed(f) && f),
        !force && !seq_has_str(vcs.missing_paths@, worktree_path@) && seq_has_str(
            vcs.dirty_paths@,
            worktree_path@,
        ) ==> (r matches Err(e) && e matches WorkmuxError::DirtyWorktree(_)),
        !force && !(!seq_has_str(vcs.missing_paths@, worktree_path@) && seq_has_str(
            vcs.dirty_paths@,
            worktree_path@,
        )) ==> ({
            if !keep_branch && spec_needs_unmerged_confirmation(*vcs, branch_name@) {
                r matches Ok(d) && d is ConfirmUnmerged
            } else {
                r matches Ok(d) && d matches RemovalDecision::Proceed(f) && !f
            }
        }),
{
    if force {
        return Ok(RemovalDecision::Proceed(true));
    }
    match check_uncommitted_changes(vcs, worktree_path) {
        Ok(()) => {},
        Err(e) => {
            return Err(e);
        },
    }
    if !keep_branch {
        let main = match get_default_branch(vcs) {
            Ok(m) => m,
            Err(_) => String::from_str("main"),
        };
        let base = get_merge_base(vcs, main.as_str());
        let unmerged = get_unmerged_branches(vcs, base.as_str());
        if vec_has_str(&unmerged, branch_name) {
            return Ok(RemovalDecision::ConfirmUnmerged);
        }
    }
    Ok(RemovalDecision::Proceed(false))
}

/// Removes a worktree and its window, deleting the branch unless it is
/// kept.
///
/// The main worktree and the main branch are protected whatever `force`
/// says; a dirty worktree blocks the removal unless forced. The
/// version-control teardown runs first; the window is closed only after it
/// succeeded, so a failing teardown never costs the user their window.
pub fn remove(
    handle: &str,
    force: bool,
    keep_branch: bool,
    context: &WorkflowContext,
    vcs: &mut VcsState,
    mux: &mut MuxState,
) -> (r: Result<RemoveResult, WorkmuxError>)
    ensures
        ({
            let k = spec_find_worktree(old(vcs).worktrees@, handle@);
            let path = old(vcs).worktrees@[k].path@;
            let branch = old(vcs).worktrees@[k].branch@;
            let precheck = spec_remove_precheck(*old(vcs), *context, handle@, force);
            &&& (r is Ok <==> precheck && spec_cleanup_ok(
                *old(vcs),
                branch,
                path,
                force,
                keep_branch,
                false,
            ) && spec_navigate_ok(*old(mux), context.prefix@, context.main_branch@, handle@))
            &&& (k < 0 ==> (r matches Err(e) && e matches WorkmuxError::NotFound(_)))
            &&& (k >= 0 && path == context.main_worktree_root@ ==> (r matches Err(e) && e
                matches WorkmuxError::ProtectedResource(_)))
            &&& (k >= 0 && path != context.main_worktree_root@ && branch == context.main_branch@
                ==> (r matches Err(e) && e matches WorkmuxError::ProtectedResource(_)))
            &&& (k >= 0 && path != context.main_worktree_root@ && branch != context.main_branch@
                && !seq_has_str(old(vcs).missing_paths@, path) && seq_has_str(
                old(vcs).dirty_paths@,
                path,
            ) && !force ==> (r matches Err(e) && e matches WorkmuxError::DirtyWorktree(_)))
            &&& (!precheck ==> *final(vcs) == *old(vcs) && *final(mux) == *old(mux))
            &&& (precheck && !spec_cleanup_ok(*old(vcs), branch, path, force, keep_branch, false)
                ==> r is Err && *final(mux) == *old(mux))
            &&& (r is Ok ==> ({
                &&& final(vcs).worktrees@ == spec_remove_wt_at(old(vcs).worktrees@, path)
                &&& (keep_branch ==> final(vcs).branches == old(vcs).branches)
                &&& (!keep_branch ==> final(vcs).branches@ == spec_remove_str(
                    old(vcs).branches@,
                    branch,
                ))
                &&& *final(vcs) == (VcsState {
                    worktrees: final(vcs).worktrees,
                    branches: final(vcs).branches,
                    worktree_remove_calls: bumped(old(vcs).worktree_remove_calls),
                    branch_delete_calls: if keep_branch {
                        old(vcs).branch_delete_calls
                    } else {
                        bumped(old(vcs).branch_delete_calls)
                    },
                    ..*old(vcs)
                })
                &&& !seq_has_str(final(mux).windows@, context.prefix@ + handle@)
                &&& *final(mux) == (MuxState {
                    windows: final(mux).windows,
                    focused: final(mux).focused,
                    create_calls: final(mux).create_calls,
                    focus_calls: final(mux).focus_calls,
                    close_calls: crate::mux::bumped(old(mux).close_calls),
                    ..*old(mux)
                })
                &&& ((old(mux).focused matches Some(f) && f@ == context.prefix@ + handle@
                    && context.prefix@ + context.main_branch@ != context.prefix@ + handle@) ==> (
                final(mux).focused matches Some(g) && g@ == context.prefix@ + context.main_branch@))
                &&& (!(old(mux).focused matches Some(f) && f@ == context.prefix@ + handle@)
                    ==> final(mux).focused == old(mux).focused)
                &&& (forall|i: int|
                    0 <= i < old(mux).windows@.len() && (#[trigger] old(mux).windows@[i])@
                        != context.prefix@ + handle@ ==> seq_has_str(
                        final(mux).windows@,
                        old(mux).windows@[i]@,
                    ))
                &&& (forall|i: int|
                    0 <= i < final(mux).windows@.len() && (#[trigger] final(mux).windows@[i])@
                        != context.prefix@ + context.main_branch@ ==> seq_has_str(
                        old(mux).windows@,
                        final(mux).windows@[i]@,
                    ))
            }))
            &&& (r matches Ok(res) ==> res.branch_removed@ == branch)
        }),
{
    // Resolve the worktree; this also validates that it exists.
    let (worktree_path, branch_name) = match find_worktree(vcs, handle) {
        Ok(pb) => pb,
        Err(e) => {
            return Err(e);
        },
    };
    // Never remove the main worktree itself, whatever branch it holds.
    if str_eq(worktree_path.as_str(), context.main_worktree_root.as_str()) {
        return Err(WorkmuxError::ProtectedResource(branch_name));
    }
    // Never delete the main branch by name either.
    if str_eq(branch_name.as_str(), context.main_branch.as_str()) {
        return Err(WorkmuxError::ProtectedResource(branch_name));
    }
    // Uncommitted changes block the removal unless forced; a directory
    // that is already gone has nothing left to lose.
    let path_on_disk = !vec_has_str(&vcs.missing_paths, worktree_path.as_str());
    if path_on_disk && has_uncommitted_changes(vcs, worktree_path.as_str()) && !force {
        return Err(WorkmuxError::DirtyWorktree(branch_name));
    }
    // Version-control side first; its outcome is recorded before any
    // window is touched.
    let cleanup_result = match cleanup(
        context,
        branch_name.as_str(),
        handle,
        worktree_path.as_str(),
        force,
        keep_branch,
        false,
        vcs,
    ) {
        Ok(cr) => cr,
        Err(e) => {
            return Err(e);
        },
    };
    // Only now the window side: move the user's view to the main branch's
    // window and close the source window.
    match navigate_to_target_and_close(
        context.prefix.as_str(),
        context.main_branch.as_str(),
        handle,
        &cleanup_result,
        context.main_worktree_root.as_str(),
        mux,
    ) {
        Ok(()) => {},
        Err(e) => {
            return Err(e);
        },
    }
    Ok(RemoveResult { branch_removed: branch_name })
}

} // verus!
