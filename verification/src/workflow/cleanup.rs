//! Safe teardown ordering between the version-control side and the window
//! side.
//!
//! The version-control side (worktree removal, branch deletion) runs and
//! has its outcome recorded first; the window is closed only afterwards, so
//! a failure there leaves the window open for a retry instead of stranding
//! the user against inconsistent state. When the window being closed is the
//! focused one, the user's view is first moved to the main branch's window.

use vstd::prelude::*;

use crate::errors::WorkmuxError;
use crate::git::{
    bumped, delete_branch, delete_remote_branch, first_wt_with_branch, remove_worktree,
    spec_can_remove_worktree, spec_remove_wt_at, VcsState,
};
use crate::strutil::spec_remove_str;
use crate::mux::{
    close_window, create_window, focus_window, is_focused, window_exists, MuxState,
};
use crate::strutil::seq_has_str;
use crate::workflow::context::WorkflowContext;

verus! {

/// What the version-control side of a teardown did.
#[derive(Debug, Clone)]
pub struct CleanupResult {
    /// The worktree registration was removed.
    pub worktree_removed: bool,
    /// The local branch was deleted.
    pub branch_deleted: bool,
    /// The branch was deleted on the remote as well.
    pub remote_deleted: bool,
}

/// When the version-control side of a teardown succeeds: the worktree can
/// be removed, and — unless the branch is kept — some worktree remains to
/// run from, the branch exists, is checked out nowhere else afterwards, is
/// merged unless forced, and deletion is not failing; remote deletion, when
/// asked for, is not failing either.
pub open spec fn spec_cleanup_ok(
    vcs: VcsState,
    branch: Seq<char>,
    path: Seq<char>,
    force: bool,
    keep_branch: bool,
    delete_remote: bool,
) -> bool {
    &&& spec_can_remove_worktree(vcs, path)
    &&& (keep_branch || ({
        let after = spec_remove_wt_at(vcs.worktrees@, path);
        &&& after.len() > 0
        &&& !vcs.fail_branch_delete
        &&& seq_has_str(vcs.branches@, branch)
        &&& first_wt_with_branch(after, branch) == -1
        &&& (force || !seq_has_str(vcs.unmerged@, branch))
    }))
    &&& (!keep_branch && delete_remote ==> !vcs.fail_remote_delete)
}

/// Tears down the version-control side of a pair: removes the worktree,
/// then deletes the branch unless it is kept, then the remote branch when
/// asked. The window side is never touched here.
pub fn cleanup(
    context: &WorkflowContext,
    branch_name: &str,
    handle: &str,
    worktree_path: &str,
    force: bool,
    keep_branch: bool,
    delete_remote: bool,
    vcs: &mut VcsState,
) -> (r: Result<CleanupResult, WorkmuxError>)
    ensures
        r is Ok <==> spec_cleanup_ok(
            *old(vcs),
            branch_name@,
            worktree_path@,
            force,
            keep_branch,
            delete_remote,
        ),
        r is Ok ==> final(vcs).worktrees@ == spec_remove_wt_at(
            old(vcs).worktrees@,
            worktree_path@,
        ),
        r is Ok && keep_branch ==> final(vcs).branches == old(vcs).branches,
        r is Ok && !keep_branch && !delete_remote ==> final(vcs).branches@ == spec_remove_str(
            old(vcs).branches@,
            branch_name@,
        ),
        r is Ok && !keep_branch && delete_remote ==> final(vcs).branches@ == spec_remove_str(
            spec_remove_str(old(vcs).branches@, branch_name@),
            "origin/"@ + branch_name@,
        ),
        r is Ok ==> *final(vcs) == (VcsState {
            worktrees: final(vcs).worktrees,
            branches: final(vcs).branches,
            worktree_remove_calls: bumped(old(vcs).worktree_remove_calls),
            branch_delete_calls: if keep_branch {
                old(vcs).branch_delete_calls
            } else {
                bumped(old(vcs).branch_delete_calls)
            },
            remote_delete_calls: if !keep_branch && delete_remote {
                bumped(old(vcs).remote_delete_calls)
            } else {
                old(vcs).remote_delete_calls
            },
            ..*old(vcs)
        }),
        r matches Ok(cr) ==> (cr.worktree_removed && cr.branch_deleted == !keep_branch
            && cr.remote_deleted == (!keep_branch && delete_remote)),
        r matches Err(e) ==> (e matches WorkmuxError::CommandFailed(_) || e
            matches WorkmuxError::NotFound(_)),
{
    match remove_worktree(vcs, worktree_path) {
        Ok(()) => {},
        Err(e) => {
            return Err(e);
        },
    }
    if keep_branch {
        return Ok(
            CleanupResult { worktree_removed: true, branch_deleted: false, remote_deleted: false },
        );
    }
    match delete_branch(vcs, branch_name, force) {
        Ok(()) => {},
        Err(e) => {
            return Err(e);
        },
    }
    if delete_remote {
        match delete_remote_branch(vcs, branch_name) {
            Ok(()) => {},
            Err(e) => {
                return Err(e);
            },
        }
    }
    Ok(
        CleanupResult {
            worktree_removed: true,
            branch_deleted: true,
            remote_deleted: delete_remote,
        },
    )
}

/// When navigation and closing succeed: the handle's window exists, and —
/// when it is the focused one — the main branch's window exists or a
/// server runs so it can be created.
pub open spec fn spec_navigate_ok(
    mux: MuxState,
    prefix: Seq<char>,
    main_branch: Seq<char>,
    handle: Seq<char>,
) -> bool {
    &&& seq_has_str(mux.windows@, prefix + handle)
    &&& ((mux.focused matches Some(f) && f@ == prefix + handle) ==> (seq_has_str(
        mux.windows@,
        prefix + main_branch,
    ) || mux.running))
}

/// Moves the user's view to the main branch's window when the window about
/// to be closed is the focused one — creating or locating that window —
/// and then closes the handle's window. The user is never left with no
/// focused window.
pub fn navigate_to_target_and_close(
    prefix: &str,
    main_branch: &str,
    handle: &str,
    cleanup_result: &CleanupResult,
    main_worktree_root: &str,
    mux: &mut MuxState,
) -> (r: Result<(), WorkmuxError>)
    ensures
        r is Ok <==> spec_navigate_ok(*old(mux), prefix@, main_branch@, handle@),
        r is Ok ==> !seq_has_str(final(mux).windows@, prefix@ + handle@),
        r is Ok ==> *final(mux) == (MuxState {
            windows: final(mux).windows,
            focused: final(mux).focused,
            create_calls: final(mux).create_calls,
            focus_calls: final(mux).focus_calls,
            close_calls: bumped(old(mux).close_calls),
            ..*old(mux)
        }),
        r is Ok ==> ((old(mux).focused matches Some(f) && f@ == prefix@ + handle@ && prefix@
            + main_branch@ != prefix@ + handle@) ==> (final(mux).focused matches Some(g) && g@
            == prefix@ + main_branch@)),
        r is Ok ==> (!(old(mux).focused matches Some(f) && f@ == prefix@ + handle@) ==> ({
            &&& final(mux).focused == old(mux).focused
            &&& final(mux).windows@ == spec_remove_str(old(mux).windows@, prefix@ + handle@)
            &&& final(mux).create_calls == old(mux).create_calls
            &&& final(mux).focus_calls == old(mux).focus_calls
        })),
        r is Ok ==> (forall|i: int|
            0 <= i < old(mux).windows@.len() && (#[trigger] old(mux).windows@[i])@ != prefix@
                + handle@ ==> seq_has_str(final(mux).windows@, old(mux).windows@[i]@)),
        r is Ok ==> (forall|i: int|
            0 <= i < final(mux).windows@.len() && (#[trigger] final(mux).windows@[i])@ != prefix@
                + main_branch@ ==> seq_has_str(old(mux).windows@, final(mux).windows@[i]@)),
        r is Err ==> *final(mux) == *old(mux),
        r matches Err(e) ==> (e matches WorkmuxError::NotFound(_) || e
            matches WorkmuxError::CommandFailed(_) || e matches WorkmuxError::AlreadyExists(_)),
{
    if !window_exists(mux, prefix, handle) {
        return Err(WorkmuxError::NotFound(crate::mux::prefixed(prefix, handle)));
    }
    if is_focused(mux, prefix, handle) {
        if !window_exists(mux, prefix, main_branch) {
            match create_window(mux, prefix, main_branch, main_worktree_root) {
                Ok(()) => {},
                Err(e) => {
                    return Err(e);
                },
            }
        }
        match focus_window(mux, prefix, main_branch) {
            Ok(()) => {},
            Err(e) => {
                return Err(e);
            },
        }
    }
    proof {
        if seq_has_str(old(mux).windows@, prefix@ + handle@) && !seq_has_str(
            mux.windows@,
            prefix@ + handle@,
        ) {
            let i = choose|i: int|
                0 <= i < old(mux).windows@.len() && #[trigger] old(mux).windows@[i]@ == prefix@
                    + handle@;
            assert(mux.windows@[i]@ == prefix@ + handle@);
        }
    }
    let ghost w = prefix@ + handle@;
    let ghost mw = prefix@ + main_branch@;
    let ghost old_ws = old(mux).windows@;
    let ghost pre_close = mux.windows@;
    let r = close_window(mux, prefix, handle);
    proof {
        crate::strutil::lemma_remove_str_absent(pre_close, w);
        if r is Ok {
            assert forall|i: int|
                0 <= i < old_ws.len() && (#[trigger] old_ws[i])@ != w implies seq_has_str(
                mux.windows@,
                old_ws[i]@,
            ) by {
                if pre_close.len() == old_ws.len() {
                    assert(pre_close[i]@ == old_ws[i]@);
                } else {
                    assert(pre_close.take(old_ws.len() as int)[i] == pre_close[i]);
                }
                assert(seq_has_str(pre_close, old_ws[i]@));
                crate::strutil::lemma_remove_str_keeps_others(pre_close, w, old_ws[i]@);
            }
            assert forall|i: int|
                0 <= i < mux.windows@.len() && (#[trigger] mux.windows@[i])@ != mw
                implies seq_has_str(old_ws, mux.windows@[i]@) by {
                let x = mux.windows@[i]@;
                assert(mux.windows@[i]@ == x);
                assert(seq_has_str(mux.windows@, x));
                assert(x != w);
                crate::strutil::lemma_remove_str_keeps_others(pre_close, w, x);
                assert(seq_has_str(pre_close, x));
                let j = choose|j: int| 0 <= j < pre_close.len() && #[trigger] pre_close[j]@ == x;
                if pre_close.len() == old_ws.len() {
                    assert(old_ws[j]@ == x);
                } else {
                    if j < old_ws.len() {
                        assert(pre_close.take(old_ws.len() as int)[j] == pre_close[j]);
                        assert(old_ws[j]@ == x);
                    } else {
                        assert(pre_close[pre_close.len() - 1]@ == mw);
                    }
                }
            }
        }
    }
    r
}

} // verus!
