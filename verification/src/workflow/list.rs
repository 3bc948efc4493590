//! Listing worktrees with their window and merge status.

use vstd::prelude::*;

use crate::config::{spec_window_prefix, Config};
use crate::errors::WorkmuxError;
use crate::git::{
    get_default_branch, get_merge_base, get_unmerged_branches, is_git_repo, spec_default_branch,
    spec_merge_base, VcsState,
};
use crate::mux::{get_all_window_names, is_running, MuxState};
use crate::strutil::{basename, basename_of, seq_has_str, str_eq, vec_has_str};
use crate::workflow::types::WorktreeInfo;

verus! {

/// Whether the listing marks `branch` as carrying unmerged commits: only
/// when a default branch is known, the branch is neither that branch nor
/// detached, the merge base exists, and the branch is recorded unmerged.
pub open spec fn spec_unmerged_mark(vcs: VcsState, branch: Seq<char>) -> bool {
    match spec_default_branch(vcs) {
        None => false,
        Some(m) => {
            &&& branch != m
            &&& branch != "(detached)"@
            &&& seq_has_str(vcs.branches@, spec_merge_base(vcs, m))
            &&& seq_has_str(vcs.unmerged@, branch)
        },
    }
}

/// Whether the listing marks a worktree as having a window: a server runs
/// and a window named after the worktree's directory basename exists.
pub open spec fn spec_window_mark(mux: MuxState, prefix: Seq<char>, path: Seq<char>) -> bool {
    mux.running && seq_has_str(mux.windows@, prefix + basename_of(path))
}

/// Lists every worktree with its branch, directory, window status and
/// unmerged-commit status.
pub fn list(config: &Config, vcs: &VcsState, mux: &MuxState) -> (r: Result<
    Vec<WorktreeInfo>,
    WorkmuxError,
>)
    ensures
        r is Ok <==> vcs.in_repo,
        r matches Err(e) ==> e == WorkmuxError::NotARepository,
        r matches Ok(v) ==> ({
            &&& v@.len() == vcs.worktrees@.len()
            &&& (forall|i: int|
                0 <= i < v@.len() ==> ({
                    &&& (#[trigger] v@[i]).branch@ == vcs.worktrees@[i].branch@
                    &&& v@[i].path@ == vcs.worktrees@[i].path@
                    &&& v@[i].has_tmux == spec_window_mark(
                        *mux,
                        spec_window_prefix(*config),
                        vcs.worktrees@[i].path@,
                    )
                    &&& v@[i].has_unmerged == spec_unmerged_mark(*vcs, vcs.worktrees@[i].branch@)
                }))
        }),
{
    if !is_git_repo(vcs) {
        return Err(WorkmuxError::NotARepository);
    }
    let prefix = config.window_prefix();
    let running = is_running(mux);
    let windows = if running {
        get_all_window_names(mux)
    } else {
        Vec::new()
    };
    let main_branch = match get_default_branch(vcs) {
        Ok(m) => Some(m),
        Err(_) => None,
    };
    let unmerged: Vec<String> = match &main_branch {
        Some(m) => {
            let base = get_merge_base(vcs, m.as_str());
            get_unmerged_branches(vcs, base.as_str())
        },
        None => Vec::new(),
    };
    let n: usize = vcs.worktrees.len();
    let mut infos: Vec<WorktreeInfo> = Vec::new();
    let mut i: usize = 0;
    while i < n
        invariant
            n == vcs.worktrees@.len(),
            0 <= i <= n,
            running == mux.running,
            prefix@ == spec_window_prefix(*config),
            windows@ == if mux.running {
                mux.windows@
            } else {
                Seq::<String>::empty()
            },
            match main_branch {
                Some(m) => Some(m@) == spec_default_branch(*vcs),
                None => spec_default_branch(*vcs) is None,
            },
            unmerged@ == ({
                match spec_default_branch(*vcs) {
                    Some(m) => if seq_has_str(vcs.branches@, spec_merge_base(*vcs, m)) {
                        vcs.unmerged@
                    } else {
                        Seq::<String>::empty()
                    },
                    None => Seq::<String>::empty(),
                }
            }),
            infos@.len() == i,
            forall|j: int|
                0 <= j < i ==> ({
                    &&& (#[trigger] infos@[j]).branch@ == vcs.worktrees@[j].branch@
                    &&& infos@[j].path@ == vcs.worktrees@[j].path@
                    &&& infos@[j].has_tmux == spec_window_mark(
                        *mux,
                        spec_window_prefix(*config),
                        vcs.worktrees@[j].path@,
                    )
                    &&& infos@[j].has_unmerged == spec_unmerged_mark(*vcs, vcs.worktrees@[j].branch@)
                }),
        decreases n - i,
    {
        let path = vcs.worktrees[i].path.clone();
        let branch = vcs.worktrees[i].branch.clone();
        let handle = basename(path.as_str());
        let full = crate::mux::prefixed(prefix.as_str(), handle.as_str());
        let has_tmux = running && vec_has_str(&windows, full.as_str());
        let has_unmerged = match &main_branch {
            Some(m) => !str_eq(branch.as_str(), m.as_str()) && !str_eq(
                branch.as_str(),
                "(detached)",
            ) && vec_has_str(&unmerged, branch.as_str()),
            None => false,
        };
        infos.push(WorktreeInfo { branch, path, has_tmux, has_unmerged });
        i = i + 1;
    }
    Ok(infos)
}

} // verus!
