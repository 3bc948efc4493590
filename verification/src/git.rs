//! Model of the version-control collaborator.
//!
//! The engine consumes version control through a narrow interface: queries
//! about branches, worktrees and pending changes, and mutations that create
//! or tear down worktrees and branches. That interface is made concrete here
//! as an explicit state value, [`VcsState`], so every decision the engine
//! takes against it is verified; a thin front end mirrors the mutations onto
//! the real tool. Injected failure flags and invocation counters let callers
//! state and test ordering guarantees of the teardown path.

use vstd::prelude::*;
use vstd::string::*;

use crate::errors::WorkmuxError;
use crate::naming::{view_opt_str, view_opt_string};
use crate::strutil::{
    basename, basename_of, clone_string_vec, first_index_of, lemma_first_index_of,
    lemma_view_strs_index, remove_str, seq_has_str, spec_remove_str, split_on, split_on_char,
    starts_with, str_eq, str_starts_with, strip_space_ends, trim_spaces, vec_has_str, view_strs,
};

verus! {

/// A registered worktree: its directory and the branch checked out in it.
#[derive(Debug, Clone)]
pub struct WorktreeEntry {
    /// Absolute directory of the worktree.
    pub path: String,
    /// Branch checked out there, or `(detached)`.
    pub branch: String,
}

/// A remote branch reference split into its remote and branch parts.
#[derive(Debug, Clone)]
pub struct RemoteBranchSpec {
    /// The remote name, e.g. `origin`.
    pub remote: String,
    /// The branch path on that remote.
    pub branch: String,
}

/// Error for a branch with no worktree; holds the branch name asked for.
#[derive(Debug, Clone, PartialEq, Eq)]
pub struct WorktreeNotFound(pub String);

/// The modelled state of the version-control side: what the underlying tool
/// would report and how it would react, held as plain values.
#[derive(Debug, Clone)]
pub struct VcsState {
    /// Whether the invocation runs inside a recognized repository.
    pub in_repo: bool,
    /// Root directory of the repository the invocation runs in.
    pub repo_root: String,
    /// Registered worktrees; the first entry is the main worktree.
    pub worktrees: Vec<WorktreeEntry>,
    /// Existing branch names, local and remote-tracking.
    pub branches: Vec<String>,
    /// Configured remote names.
    pub remotes: Vec<String>,
    /// The branch the default remote head points at, when resolvable.
    pub origin_head: Option<String>,
    /// Pairs of branch and its configured upstream reference.
    pub upstreams: Vec<(String, String)>,
    /// Registered worktree directories that no longer exist on disk.
    pub missing_paths: Vec<String>,
    /// Worktree directories with uncommitted changes of any kind.
    pub dirty_paths: Vec<String>,
    /// Worktree directories with staged changes.
    pub staged_paths: Vec<String>,
    /// Worktree directories with unstaged changes.
    pub unstaged_paths: Vec<String>,
    /// Worktree directories with untracked files.
    pub untracked_paths: Vec<String>,
    /// Branches carrying commits not merged into the merge base.
    pub unmerged: Vec<String>,
    /// Branch checked out in the invocation's working directory.
    pub current_branch: String,
    /// Injected failure: branch deletion fails.
    pub fail_branch_delete: bool,
    /// Injected failure: worktree removal fails.
    pub fail_worktree_remove: bool,
    /// Injected failure: merge, rebase and squash-merge fail (conflict).
    pub fail_merge: bool,
    /// Injected failure: committing staged changes fails or is aborted.
    pub fail_commit: bool,
    /// Injected failure: remote branch deletion fails.
    pub fail_remote_delete: bool,
    /// Invocations of branch deletion.
    pub branch_delete_calls: u64,
    /// Invocations of remote branch deletion.
    pub remote_delete_calls: u64,
    /// Invocations of worktree removal.
    pub worktree_remove_calls: u64,
    /// Invocations of remote fetching.
    pub fetch_calls: u64,
}

impl VcsState {
    /// A state outside any repository: nothing exists, nothing fails, no
    /// invocation is recorded yet.
    pub fn empty() -> (r: VcsState)
        ensures
            !r.in_repo,
            r.repo_root@.len() == 0,
            r.worktrees@.len() == 0,
            r.branches@.len() == 0,
            r.remotes@.len() == 0,
            r.origin_head is None,
            r.upstreams@.len() == 0,
            r.missing_paths@.len() == 0,
            r.dirty_paths@.len() == 0,
            r.staged_paths@.len() == 0,
            r.unstaged_paths@.len() == 0,
            r.untracked_paths@.len() == 0,
            r.unmerged@.len() == 0,
            r.current_branch@.len() == 0,
            !r.fail_branch_delete,
            !r.fail_worktree_remove,
            !r.fail_merge,
            !r.fail_commit,
            !r.fail_remote_delete,
            r.branch_delete_calls == 0,
            r.remote_delete_calls == 0,
            r.worktree_remove_calls == 0,
            r.fetch_calls == 0,
    {
        VcsState {
            in_repo: false,
            repo_root: String::new(),
            worktrees: Vec::new(),
            branches: Vec::new(),
            remotes: Vec::new(),
            origin_head: None,
            upstreams: Vec::new(),
            missing_paths: Vec::new(),
            dirty_paths: Vec::new(),
            staged_paths: Vec::new(),
            unstaged_paths: Vec::new(),
            untracked_paths: Vec::new(),
            unmerged: Vec::new(),
            current_branch: String::new(),
            fail_branch_delete: false,
            fail_worktree_remove: false,
            fail_merge: false,
            fail_commit: false,
            fail_remote_delete: false,
            branch_delete_calls: 0,
            remote_delete_calls: 0,
            worktree_remove_calls: 0,
            fetch_calls: 0,
        }
    }
}

/// A counter after one more recorded invocation.
pub open spec fn bumped(c: u64) -> u64 {
    if c < u64::MAX {
        (c + 1) as u64
    } else {
        c
    }
}

/// Records one more invocation without ever overflowing.
pub fn bump(c: u64) -> (r: u64)
    ensures
        r == bumped(c),
{
    if c < u64::MAX {
        c + 1
    } else {
        c
    }
}



/// Index of the first worktree whose branch reads `b`, or `-1`.
pub open spec fn first_wt_with_branch(ws: Seq<WorktreeEntry>, b: Seq<char>) -> int
    decreases ws.len(),
{
    if ws.len() == 0 {
        -1
    } else if ws[0].branch@ == b {
        0
    } else {
        let r = first_wt_with_branch(ws.skip(1), b);
        if r == -1 {
            -1
        } else {
            r + 1
        }
    }
}

/// Characterizes `first_wt_with_branch` by a scan that stopped at `i`.
proof fn lemma_first_wt_with_branch(ws: Seq<WorktreeEntry>, b: Seq<char>, i: int)
    requires
        0 <= i <= ws.len(),
        forall|j: int| 0 <= j < i ==> #[trigger] ws[j].branch@ != b,
        i == ws.len() || ws[i].branch@ == b,
    ensures
        first_wt_with_branch(ws, b) == if i == ws.len() {
            -1int
        } else {
            i
        },
    decreases i,
{
    if i == 0 {
    } else {
        assert(ws[0].branch@ != b);
        lemma_first_wt_with_branch(ws.skip(1), b, i - 1);
    }
}

/// Index of the first worktree whose directory basename reads `h`, or `-1`.
pub open spec fn first_wt_with_handle(ws: Seq<WorktreeEntry>, h: Seq<char>) -> int
    decreases ws.len(),
{
    if ws.len() == 0 {
        -1
    } else if basename_of(ws[0].path@) == h {
        0
    } else {
        let r = first_wt_with_handle(ws.skip(1), h);
        if r == -1 {
            -1
        } else {
            r + 1
        }
    }
}

/// Characterizes `first_wt_with_handle` by a scan that stopped at `i`.
proof fn lemma_first_wt_with_handle(ws: Seq<WorktreeEntry>, h: Seq<char>, i: int)
    requires
        0 <= i <= ws.len(),
        forall|j: int| 0 <= j < i ==> basename_of(#[trigger] ws[j].path@) != h,
        i == ws.len() || basename_of(ws[i].path@) == h,
    ensures
        first_wt_with_handle(ws, h) == if i == ws.len() {
            -1int
        } else {
            i
        },
    decreases i,
{
    if i == 0 {
    } else {
        assert(basename_of(ws[0].path@) != h);
        lemma_first_wt_with_handle(ws.skip(1), h, i - 1);
    }
}

/// Index of the first worktree at directory `p`, or `-1`.
pub open spec fn first_wt_with_path(ws: Seq<WorktreeEntry>, p: Seq<char>) -> int
    decreases ws.len(),
{
    if ws.len() == 0 {
        -1
    } else if ws[0].path@ == p {
        0
    } else {
        let r = first_wt_with_path(ws.skip(1), p);
        if r == -1 {
            -1
        } else {
            r + 1
        }
    }
}

/// Characterizes `first_wt_with_path` by a scan that stopped at `i`.
proof fn lemma_first_wt_with_path(ws: Seq<WorktreeEntry>, p: Seq<char>, i: int)
    requires
        0 <= i <= ws.len(),
        forall|j: int| 0 <= j < i ==> #[trigger] ws[j].path@ != p,
        i == ws.len() || ws[i].path@ == p,
    ensures
        first_wt_with_path(ws, p) == if i == ws.len() {
            -1int
        } else {
            i
        },
    decreases i,
{
    if i == 0 {
    } else {
        assert(ws[0].path@ != p);
        lemma_first_wt_with_path(ws.skip(1), p, i - 1);
    }
}

/// The worktree pairs of a listing's line views.
pub open spec fn view_wt_entries(v: Seq<WorktreeEntry>) -> Seq<(Seq<char>, Seq<char>)>
    decreases v.len(),
{
    if v.len() == 0 {
        Seq::empty()
    } else {
        seq![(v[0].path@, v[0].branch@)] + view_wt_entries(v.skip(1))
    }
}

/// `view_wt_entries` distributes over appending one entry.
proof fn lemma_view_wt_entries_push(v: Seq<WorktreeEntry>, e: WorktreeEntry)
    ensures
        view_wt_entries(v.push(e)) == view_wt_entries(v) + seq![(e.path@, e.branch@)],
    decreases v.len(),
{
    if v.len() == 0 {
        assert(v.push(e).skip(1) =~= Seq::<WorktreeEntry>::empty());
        assert(v.push(e)[0] == e);
        assert(view_wt_entries(v.push(e).skip(1)) =~= Seq::<(Seq<char>, Seq<char>)>::empty());
        assert(view_wt_entries(v.push(e)) =~= Seq::<(Seq<char>, Seq<char>)>::empty() + seq![
            (e.path@, e.branch@),
        ]);
        assert(view_wt_entries(v) + seq![(e.path@, e.branch@)] =~= Seq::<
            (Seq<char>, Seq<char>),
        >::empty() + seq![(e.path@, e.branch@)]);
    } else {
        assert(v.push(e).skip(1) =~= v.skip(1).push(e));
        lemma_view_wt_entries_push(v.skip(1), e);
        assert(seq![(v[0].path@, v[0].branch@)] + (view_wt_entries(v.skip(1)) + seq![
            (e.path@, e.branch@),
        ]) =~= (seq![(v[0].path@, v[0].branch@)] + view_wt_entries(v.skip(1))) + seq![
            (e.path@, e.branch@),
        ]);
    }
}

/// The pair a finished listing block yields: one worktree when both its
/// directory and its branch were seen, nothing otherwise.
pub open spec fn spec_block_flush(p: Option<Seq<char>>, b: Option<Seq<char>>) -> Seq<
    (Seq<char>, Seq<char>),
> {
    match (p, b) {
        (Some(path), Some(branch)) => seq![(path, branch)],
        _ => Seq::empty(),
    }
}

/// The worktree pairs a porcelain listing's lines describe. Blocks are
/// separated by blank lines; inside a block, a `worktree ` line names the
/// directory, a `branch refs/heads/` line names the branch, and a
/// `detached` line stands for a detached head.
pub open spec fn spec_porcelain(
    lines: Seq<Seq<char>>,
    p: Option<Seq<char>>,
    b: Option<Seq<char>>,
) -> Seq<(Seq<char>, Seq<char>)>
    decreases lines.len(),
{
    if lines.len() == 0 {
        spec_block_flush(p, b)
    } else {
        let l = lines[0];
        if l.len() == 0 {
            spec_block_flush(p, b) + spec_porcelain(lines.skip(1), None, None)
        } else if starts_with(l, "worktree "@) {
            spec_porcelain(lines.skip(1), Some(l.skip("worktree "@.len() as int)), b)
        } else if starts_with(l, "branch refs/heads/"@) {
            spec_porcelain(lines.skip(1), p, Some(l.skip("branch refs/heads/"@.len() as int)))
        } else if trim_spaces(l) == "detached"@ {
            spec_porcelain(lines.skip(1), p, Some("(detached)"@))
        } else {
            spec_porcelain(lines.skip(1), p, b)
        }
    }
}

/// Parses the porcelain worktree listing: one block per worktree, blocks
/// separated by blank lines. The real listing is read through this parser
/// when the state snapshot is built from the underlying tool's output.
pub fn parse_worktree_list_porcelain(output: &str) -> (r: Vec<WorktreeEntry>)
    ensures
        view_wt_entries(r@) == spec_porcelain(split_on(output@, '\n'), None, None),
{
    let lines = split_on_char(output, '\n');
    let ghost lines_v = view_strs(lines@);
    proof {
        lemma_view_strs_index(lines@);
        assert(lines_v.skip(0) =~= lines_v);
        assert(view_wt_entries(Seq::<WorktreeEntry>::empty()) =~= Seq::<
            (Seq<char>, Seq<char>),
        >::empty());
    }
    let n: usize = lines.len();
    let mut out: Vec<WorktreeEntry> = Vec::new();
    let mut cur_path: Option<String> = None;
    let mut cur_branch: Option<String> = None;
    let mut i: usize = 0;
    while i < n
        invariant
            n == lines@.len(),
            lines_v == view_strs(lines@),
            lines_v.len() == n,
            forall|j: int| 0 <= j < n ==> #[trigger] lines_v[j] == lines@[j]@,
            0 <= i <= n,
            spec_porcelain(lines_v, None, None) == view_wt_entries(out@) + spec_porcelain(
                lines_v.skip(i as int),
                view_opt_string(cur_path),
                view_opt_string(cur_branch),
            ),
        decreases n - i,
    {
        let ghost rest = lines_v.skip(i as int);
        proof {
            assert(rest[0] == lines@[i as int]@);
            assert(rest.skip(1) =~= lines_v.skip(i + 1));
        }
        let line = &lines[i];
        if line.unicode_len() == 0 {
            match (&cur_path, &cur_branch) {
                (Some(p), Some(b)) => {
                    let entry = WorktreeEntry { path: p.clone(), branch: b.clone() };
                    proof {
                        lemma_view_wt_entries_push(out@, entry);
                        assert((view_wt_entries(out@) + seq![(entry.path@, entry.branch@)])
                            + spec_porcelain(lines_v.skip(i + 1), None, None) =~= view_wt_entries(
                            out@,
                        ) + (seq![(entry.path@, entry.branch@)] + spec_porcelain(
                            lines_v.skip(i + 1),
                            None,
                            None,
                        )));
                    }
                    out.push(entry);
                },
                _ => {
                    proof {
                        assert(spec_block_flush(
                            view_opt_string(cur_path),
                            view_opt_string(cur_branch),
                        ) + spec_porcelain(lines_v.skip(i + 1), None, None) =~= spec_porcelain(
                            lines_v.skip(i + 1),
                            None,
                            None,
                        ));
                    }
                },
            }
            cur_path = None;
            cur_branch = None;
        } else if str_starts_with(line.as_str(), "worktree ") {
            let m: usize = "worktree ".unicode_len();
            let tail = line.as_str().substring_char(m, line.unicode_len());
            proof {
                assert(tail@ =~= rest[0].skip("worktree "@.len() as int));
            }
            cur_path = Some(String::from_str(tail));
        } else if str_starts_with(line.as_str(), "branch refs/heads/") {
            let m: usize = "branch refs/heads/".unicode_len();
            let tail = line.as_str().substring_char(m, line.unicode_len());
            proof {
                assert(tail@ =~= rest[0].skip("branch refs/heads/"@.len() as int));
            }
            cur_branch = Some(String::from_str(tail));
        } else if str_eq(strip_space_ends(line.as_str()), "detached") {
            cur_branch = Some(String::from_str("(detached)"));
        } else {
        }
        i = i + 1;
    }
    match (&cur_path, &cur_branch) {
        (Some(p), Some(b)) => {
            let entry = WorktreeEntry { path: p.clone(), branch: b.clone() };
            proof {
                assert(lines_v.skip(n as int) =~= Seq::<Seq<char>>::empty());
                lemma_view_wt_entries_push(out@, entry);
            }
            out.push(entry);
        },
        _ => {
            proof {
                assert(lines_v.skip(n as int) =~= Seq::<Seq<char>>::empty());
                assert(view_wt_entries(out@) + spec_porcelain(
                    lines_v.skip(n as int),
                    view_opt_string(cur_path),
                    view_opt_string(cur_branch),
                ) =~= view_wt_entries(out@));
            }
        },
    }
    out
}

/// Whether the invocation runs inside a recognized repository.
pub fn is_git_repo(vcs: &VcsState) -> (r: bool)
    ensures
        r == vcs.in_repo,
{
    vcs.in_repo
}

/// The root directory of the repository.
pub fn get_repo_root(vcs: &VcsState) -> (r: Result<String, WorkmuxError>)
    ensures
        r is Ok <==> vcs.in_repo,
        r matches Ok(p) ==> p@ == vcs.repo_root@,
        r matches Err(e) ==> e == WorkmuxError::NotARepository,
{
    if vcs.in_repo {
        Ok(vcs.repo_root.clone())
    } else {
        Err(WorkmuxError::NotARepository)
    }
}

/// The main (non-linked) worktree root: the first registered worktree.
pub fn get_main_worktree_root(vcs: &VcsState) -> (r: Result<String, WorkmuxError>)
    ensures
        r is Ok <==> vcs.worktrees@.len() > 0,
        r matches Ok(p) ==> p@ == vcs.worktrees@[0].path@,
        r matches Err(e) ==> e matches WorkmuxError::NotFound(_),
{
    if vcs.worktrees.len() > 0 {
        Ok(vcs.worktrees[0].path.clone())
    } else {
        Err(WorkmuxError::NotFound(String::from_str("main worktree")))
    }
}

/// The default branch a repository state yields: the remote head when it is
/// resolvable, else `main` or `master` when one exists locally.
pub open spec fn spec_default_branch(vcs: VcsState) -> Option<Seq<char>> {
    if vcs.origin_head is Some {
        Some(vcs.origin_head->0@)
    } else if seq_has_str(vcs.branches@, "main"@) {
        Some("main"@)
    } else if seq_has_str(vcs.branches@, "master"@) {
        Some("master"@)
    } else {
        None
    }
}

/// The default branch, or a configuration-needed error when no source can
/// name one.
pub fn get_default_branch(vcs: &VcsState) -> (r: Result<String, WorkmuxError>)
    ensures
        r is Ok <==> spec_default_branch(*vcs) is Some,
        r matches Ok(b) ==> Some(b@) == spec_default_branch(*vcs),
        r matches Err(e) ==> e == WorkmuxError::ConfigurationRequired,
{
    match &vcs.origin_head {
        Some(b) => Ok(b.clone()),
        None => {
            if vec_has_str(&vcs.branches, "main") {
                Ok(String::from_str("main"))
            } else if vec_has_str(&vcs.branches, "master") {
                Ok(String::from_str("master"))
            } else {
                Err(WorkmuxError::ConfigurationRequired)
            }
        },
    }
}

/// Whether a branch exists, as a local or remote-tracking branch.
pub fn branch_exists(vcs: &VcsState, branch_name: &str) -> (r: bool)
    ensures
        r == seq_has_str(vcs.branches@, branch_name@),
{
    vec_has_str(&vcs.branches, branch_name)
}

/// The configured remotes.
pub fn list_remotes(vcs: &VcsState) -> (r: Vec<String>)
    ensures
        r@ == vcs.remotes@,
{
    clone_string_vec(&vcs.remotes)
}

/// Whether a remote of that name is configured.
pub fn remote_exists(vcs: &VcsState, remote: &str) -> (r: bool)
    ensures
        r == seq_has_str(vcs.remotes@, remote@),
{
    vec_has_str(&vcs.remotes, remote)
}

/// Whether some worktree has the branch checked out.
pub fn worktree_exists(vcs: &VcsState, branch_name: &str) -> (r: bool)
    ensures
        r == (first_wt_with_branch(vcs.worktrees@, branch_name@) >= 0),
{
    match get_worktree_path(vcs, branch_name) {
        Ok(_) => true,
        Err(_) => false,
    }
}

/// The directory of the worktree holding `branch_name`, or a not-found
/// error naming the branch.
pub fn get_worktree_path(vcs: &VcsState, branch_name: &str) -> (r: Result<String, WorktreeNotFound>)
    ensures
        r is Ok <==> first_wt_with_branch(vcs.worktrees@, branch_name@) >= 0,
        r matches Ok(p) ==> p@ == vcs.worktrees@[first_wt_with_branch(
            vcs.worktrees@,
            branch_name@,
        )].path@,
        r matches Err(e) ==> e.0@ == branch_name@,
{
    let n: usize = vcs.worktrees.len();
    let mut i: usize = 0;
    while i < n
        invariant
            n == vcs.worktrees@.len(),
            0 <= i <= n,
            forall|j: int| 0 <= j < i ==> #[trigger] vcs.worktrees@[j].branch@ != branch_name@,
        decreases n - i,
    {
        if str_eq(vcs.worktrees[i].branch.as_str(), branch_name) {
            proof {
                lemma_first_wt_with_branch(vcs.worktrees@, branch_name@, i as int);
            }
            return Ok(vcs.worktrees[i].path.clone());
        }
        i = i + 1;
    }
    proof {
        lemma_first_wt_with_branch(vcs.worktrees@, branch_name@, n as int);
    }
    Err(WorktreeNotFound(String::from_str(branch_name)))
}

/// All registered worktrees with their branches.
pub fn list_worktrees(vcs: &VcsState) -> (r: Vec<WorktreeEntry>)
    ensures
        r@ == vcs.worktrees@,
{
    let n: usize = vcs.worktrees.len();
    let mut r: Vec<WorktreeEntry> = Vec::new();
    let mut i: usize = 0;
    while i < n
        invariant
            n == vcs.worktrees@.len(),
            0 <= i <= n,
            r@ =~= vcs.worktrees@.take(i as int),
        decreases n - i,
    {
        r.push(
            WorktreeEntry {
                path: vcs.worktrees[i].path.clone(),
                branch: vcs.worktrees[i].branch.clone(),
            },
        );
        i = i + 1;
    }
    proof {
        assert(r@ =~= vcs.worktrees@);
    }
    r
}


/// Whether the worktree at `worktree_path` has uncommitted changes.
pub fn has_uncommitted_changes(vcs: &VcsState, worktree_path: &str) -> (r: bool)
    ensures
        r == seq_has_str(vcs.dirty_paths@, worktree_path@),
{
    vec_has_str(&vcs.dirty_paths, worktree_path)
}

/// Whether the worktree at `worktree_path` has staged changes.
pub fn has_staged_changes(vcs: &VcsState, worktree_path: &str) -> (r: bool)
    ensures
        r == seq_has_str(vcs.staged_paths@, worktree_path@),
{
    vec_has_str(&vcs.staged_paths, worktree_path)
}

/// Whether the worktree at `worktree_path` has unstaged changes.
pub fn has_unstaged_changes(vcs: &VcsState, worktree_path: &str) -> (r: bool)
    ensures
        r == seq_has_str(vcs.unstaged_paths@, worktree_path@),
{
    vec_has_str(&vcs.unstaged_paths, worktree_path)
}

/// The branch checked out in the invocation's working directory.
pub fn get_current_branch(vcs: &VcsState) -> (r: String)
    ensures
        r@ == vcs.current_branch@,
{
    vcs.current_branch.clone()
}

/// Splits a remote branch reference of the form `<remote>/<branch>` at the
/// first separator; both parts must be non-empty.
pub fn parse_remote_branch_spec(spec_text: &str) -> (r: Result<RemoteBranchSpec, WorkmuxError>)
    ensures
        ({
            let k = first_index_of(spec_text@, '/');
            &&& (r is Ok <==> 1 <= k && k + 1 < spec_text@.len())
            &&& (r matches Ok(rb) ==> rb.remote@ == spec_text@.subrange(0, k) && rb.branch@
                == spec_text@.subrange(k + 1, spec_text@.len() as int))
            &&& (r matches Err(e) ==> e matches WorkmuxError::InvalidRemoteSpec(_))
        }),
{
    let n: usize = spec_text.unicode_len();
    let mut i: usize = 0;
    while i < n && spec_text.get_char(i) != '/'
        invariant
            n == spec_text@.len(),
            0 <= i <= n,
            forall|j: int| 0 <= j < i ==> spec_text@[j] != '/',
        decreases n - i,
    {
        i = i + 1;
    }
    proof {
        lemma_first_index_of(spec_text@, '/', i as int);
    }
    if i == 0 || i >= n || i + 1 == n {
        return Err(WorkmuxError::InvalidRemoteSpec(String::from_str(spec_text)));
    }
    let remote = String::from_str(spec_text.substring_char(0, i));
    let branch = String::from_str(spec_text.substring_char(i + 1, n));
    Ok(RemoteBranchSpec { remote, branch })
}

/// Index of the first upstream pair for branch `b`, or `-1`.
pub open spec fn first_upstream(ups: Seq<(String, String)>, b: Seq<char>) -> int
    decreases ups.len(),
{
    if ups.len() == 0 {
        -1
    } else if ups[0].0@ == b {
        0
    } else {
        let r = first_upstream(ups.skip(1), b);
        if r == -1 {
            -1
        } else {
            r + 1
        }
    }
}

/// Characterizes `first_upstream` by a scan that stopped at `i`.
proof fn lemma_first_upstream(ups: Seq<(String, String)>, b: Seq<char>, i: int)
    requires
        0 <= i <= ups.len(),
        forall|j: int| 0 <= j < i ==> (#[trigger] ups[j]).0@ != b,
        i == ups.len() || ups[i].0@ == b,
    ensures
        first_upstream(ups, b) == if i == ups.len() {
            -1int
        } else {
            i
        },
    decreases i,
{
    if i == 0 {
    } else {
        assert(ups[0].0@ != b);
        lemma_first_upstream(ups.skip(1), b, i - 1);
    }
}

/// Whether branch `b` has a configured upstream.
pub fn branch_has_upstream(vcs: &VcsState, branch_name: &str) -> (r: bool)
    ensures
        r == (first_upstream(vcs.upstreams@, branch_name@) >= 0),
{
    let n: usize = vcs.upstreams.len();
    let mut i: usize = 0;
    while i < n
        invariant
            n == vcs.upstreams@.len(),
            0 <= i <= n,
            forall|j: int| 0 <= j < i ==> (#[trigger] vcs.upstreams@[j]).0@ != branch_name@,
        decreases n - i,
    {
        if str_eq(vcs.upstreams[i].0.as_str(), branch_name) {
            proof {
                lemma_first_upstream(vcs.upstreams@, branch_name@, i as int);
            }
            return true;
        }
        i = i + 1;
    }
    proof {
        lemma_first_upstream(vcs.upstreams@, branch_name@, n as int);
    }
    false
}

/// The upstream pairs without every entry for branch `b`.
pub open spec fn spec_drop_upstream(ups: Seq<(String, String)>, b: Seq<char>) -> Seq<
    (String, String),
>
    decreases ups.len(),
{
    if ups.len() == 0 {
        ups
    } else {
        let rest = spec_drop_upstream(ups.skip(1), b);
        if ups[0].0@ == b {
            rest
        } else {
            seq![ups[0]] + rest
        }
    }
}

/// `spec_drop_upstream` distributes over appending one pair.
proof fn lemma_drop_upstream_push(ups: Seq<(String, String)>, b: Seq<char>, e: (String, String))
    ensures
        spec_drop_upstream(ups.push(e), b) == if e.0@ == b {
            spec_drop_upstream(ups, b)
        } else {
            spec_drop_upstream(ups, b) + seq![e]
        },
    decreases ups.len(),
{
    if ups.len() == 0 {
        assert(ups.push(e).skip(1) =~= Seq::<(String, String)>::empty());
        assert(ups.push(e)[0] == e);
        assert(spec_drop_upstream(ups.push(e).skip(1), b) =~= Seq::<(String, String)>::empty());
        if e.0@ == b {
        } else {
            assert(spec_drop_upstream(ups.push(e), b) =~= seq![e]);
            assert(spec_drop_upstream(ups, b) + seq![e] =~= seq![e]);
        }
    } else {
        assert(ups.push(e).skip(1) =~= ups.skip(1).push(e));
        lemma_drop_upstream_push(ups.skip(1), b, e);
        if e.0@ == b {
        } else {
            if ups[0].0@ == b {
            } else {
                assert(seq![ups[0]] + (spec_drop_upstream(ups.skip(1), b) + seq![e]) =~= (
                seq![ups[0]] + spec_drop_upstream(ups.skip(1), b)) + seq![e]);
            }
        }
    }
}

/// Removes the upstream tracking entries of a branch; a branch without an
/// upstream is left as it is.
pub fn unset_branch_upstream(vcs: &mut VcsState, branch_name: &str) -> (r: Result<
    (),
    WorkmuxError,
>)
    ensures
        r is Ok,
        *final(vcs) == (VcsState { upstreams: final(vcs).upstreams, ..*old(vcs) }),
        final(vcs).upstreams@ == spec_drop_upstream(old(vcs).upstreams@, branch_name@),
{
    let n: usize = vcs.upstreams.len();
    let mut kept: Vec<(String, String)> = Vec::new();
    let mut i: usize = 0;
    while i < n
        invariant
            n == vcs.upstreams@.len(),
            0 <= i <= n,
            *vcs == *old(vcs),
            kept@ == spec_drop_upstream(vcs.upstreams@.take(i as int), branch_name@),
        decreases n - i,
    {
        proof {
            assert(vcs.upstreams@.take(i + 1) =~= vcs.upstreams@.take(i as int).push(
                vcs.upstreams@[i as int],
            ));
            lemma_drop_upstream_push(
                vcs.upstreams@.take(i as int),
                branch_name@,
                vcs.upstreams@[i as int],
            );
        }
        if !str_eq(vcs.upstreams[i].0.as_str(), branch_name) {
            let pair = (vcs.upstreams[i].0.clone(), vcs.upstreams[i].1.clone());
            assert(pair == vcs.upstreams@[i as int]);
            kept.push(pair);
        }
        i = i + 1;
    }
    proof {
        assert(vcs.upstreams@.take(n as int) =~= vcs.upstreams@);
    }
    vcs.upstreams = kept;
    Ok(())
}

/// The merge base used for unmerged-commit checks: the configured upstream
/// of the main branch when one exists, else its remote-tracking branch when
/// that exists, else the main branch itself.
pub open spec fn spec_merge_base(vcs: VcsState, m: Seq<char>) -> Seq<char> {
    let k = first_upstream(vcs.upstreams@, m);
    if k >= 0 {
        vcs.upstreams@[k].1@
    } else if seq_has_str(vcs.branches@, "origin/"@ + m) {
        "origin/"@ + m
    } else {
        m
    }
}

/// The base branch for merge checks, preferring the remote tracking branch.
pub fn get_merge_base(vcs: &VcsState, main_branch: &str) -> (r: String)
    ensures
        r@ == spec_merge_base(*vcs, main_branch@),
{
    let n: usize = vcs.upstreams.len();
    let mut i: usize = 0;
    while i < n
        invariant
            n == vcs.upstreams@.len(),
            0 <= i <= n,
            forall|j: int| 0 <= j < i ==> (#[trigger] vcs.upstreams@[j]).0@ != main_branch@,
        decreases n - i,
    {
        if str_eq(vcs.upstreams[i].0.as_str(), main_branch) {
            proof {
                lemma_first_upstream(vcs.upstreams@, main_branch@, i as int);
            }
            return vcs.upstreams[i].1.clone();
        }
        i = i + 1;
    }
    proof {
        lemma_first_upstream(vcs.upstreams@, main_branch@, n as int);
    }
    let mut remote_main = String::from_str("origin/");
    remote_main.append(main_branch);
    if branch_exists(vcs, remote_main.as_str()) {
        remote_main
    } else {
        String::from_str(main_branch)
    }
}

/// The branches not merged into `base_branch`: the recorded set when the
/// base exists, and the empty set otherwise (a missing base is non-fatal).
pub fn get_unmerged_branches(vcs: &VcsState, base_branch: &str) -> (r: Vec<String>)
    ensures
        seq_has_str(vcs.branches@, base_branch@) ==> r@ == vcs.unmerged@,
        !seq_has_str(vcs.branches@, base_branch@) ==> r@.len() == 0,
{
    if branch_exists(vcs, base_branch) {
        clone_string_vec(&vcs.unmerged)
    } else {
        Vec::new()
    }
}

/// Index of the first worktree at directory `p`, as an executable search.
pub fn wt_index_by_path(ws: &Vec<WorktreeEntry>, p: &str) -> (r: Option<usize>)
    ensures
        r matches Some(i) ==> i < ws@.len() && first_wt_with_path(ws@, p@) == i,
        r is None ==> first_wt_with_path(ws@, p@) == -1,
{
    let n: usize = ws.len();
    let mut i: usize = 0;
    while i < n
        invariant
            n == ws@.len(),
            0 <= i <= n,
            forall|j: int| 0 <= j < i ==> #[trigger] ws@[j].path@ != p@,
        decreases n - i,
    {
        if str_eq(ws[i].path.as_str(), p) {
            proof {
                lemma_first_wt_with_path(ws@, p@, i as int);
            }
            return Some(i);
        }
        i = i + 1;
    }
    proof {
        lemma_first_wt_with_path(ws@, p@, n as int);
    }
    None
}

/// Index of the first worktree whose branch is `b`, as an executable search.
pub fn wt_index_by_branch(ws: &Vec<WorktreeEntry>, b: &str) -> (r: Option<usize>)
    ensures
        r matches Some(i) ==> i < ws@.len() && first_wt_with_branch(ws@, b@) == i,
        r is None ==> first_wt_with_branch(ws@, b@) == -1,
{
    let n: usize = ws.len();
    let mut i: usize = 0;
    while i < n
        invariant
            n == ws@.len(),
            0 <= i <= n,
            forall|j: int| 0 <= j < i ==> #[trigger] ws@[j].branch@ != b@,
        decreases n - i,
    {
        if str_eq(ws[i].branch.as_str(), b) {
            proof {
                lemma_first_wt_with_branch(ws@, b@, i as int);
            }
            return Some(i);
        }
        i = i + 1;
    }
    proof {
        lemma_first_wt_with_branch(ws@, b@, n as int);
    }
    None
}

/// Index of the first worktree whose directory basename is `h`, as an
/// executable search.
pub fn wt_index_by_handle(ws: &Vec<WorktreeEntry>, h: &str) -> (r: Option<usize>)
    ensures
        r matches Some(i) ==> i < ws@.len() && first_wt_with_handle(ws@, h@) == i,
        r is None ==> first_wt_with_handle(ws@, h@) == -1,
{
    let n: usize = ws.len();
    let mut i: usize = 0;
    while i < n
        invariant
            n == ws@.len(),
            0 <= i <= n,
            forall|j: int| 0 <= j < i ==> basename_of(#[trigger] ws@[j].path@) != h@,
        decreases n - i,
    {
        let base = basename(ws[i].path.as_str());
        if str_eq(base.as_str(), h) {
            proof {
                lemma_first_wt_with_handle(ws@, h@, i as int);
            }
            return Some(i);
        }
        i = i + 1;
    }
    proof {
        lemma_first_wt_with_handle(ws@, h@, n as int);
    }
    None
}

/// The worktree a user-given name resolves to: first the worktree whose
/// directory basename is the name (handle resolution), then the worktree
/// whose branch is the name.
pub open spec fn spec_find_worktree(ws: Seq<WorktreeEntry>, name: Seq<char>) -> int {
    if first_wt_with_handle(ws, name) >= 0 {
        first_wt_with_handle(ws, name)
    } else {
        first_wt_with_branch(ws, name)
    }
}

/// Resolves a handle or branch name to its worktree directory and branch.
pub fn find_worktree(vcs: &VcsState, name: &str) -> (r: Result<(String, String), WorkmuxError>)
    ensures
        r is Ok <==> spec_find_worktree(vcs.worktrees@, name@) >= 0,
        r matches Ok(pb) ==> ({
            let k = spec_find_worktree(vcs.worktrees@, name@);
            pb.0@ == vcs.worktrees@[k].path@ && pb.1@ == vcs.worktrees@[k].branch@
        }),
        r matches Err(e) ==> e matches WorkmuxError::NotFound(_),
{
    match wt_index_by_handle(&vcs.worktrees, name) {
        Some(i) => Ok((vcs.worktrees[i].path.clone(), vcs.worktrees[i].branch.clone())),
        None => match wt_index_by_branch(&vcs.worktrees, name) {
            Some(i) => Ok((vcs.worktrees[i].path.clone(), vcs.worktrees[i].branch.clone())),
            None => Err(WorkmuxError::NotFound(String::from_str(name))),
        },
    }
}

/// Records one more fetch of a configured remote; an unknown remote fails
/// and changes nothing.
pub fn fetch_remote(vcs: &mut VcsState, remote: &str) -> (r: Result<(), WorkmuxError>)
    ensures
        r is Ok <==> seq_has_str(old(vcs).remotes@, remote@),
        r is Ok ==> *final(vcs) == (VcsState {
            fetch_calls: bumped(old(vcs).fetch_calls),
            ..*old(vcs)
        }),
        r is Err ==> *final(vcs) == *old(vcs),
        r matches Err(e) ==> e matches WorkmuxError::CommandFailed(_),
{
    if vec_has_str(&vcs.remotes, remote) {
        vcs.fetch_calls = bump(vcs.fetch_calls);
        Ok(())
    } else {
        Err(WorkmuxError::CommandFailed(String::from_str(remote)))
    }
}

/// `cur` is `prev` with one string reading `s` appended.
pub open spec fn added_str(prev: Seq<String>, cur: Seq<String>, s: Seq<char>) -> bool {
    &&& cur.len() == prev.len() + 1
    &&& cur.take(prev.len() as int) == prev
    &&& cur.last()@ == s
}

/// `cur` is `prev` when `s` was already present, else `prev` with `s`
/// appended.
pub open spec fn added_str_if_absent(prev: Seq<String>, cur: Seq<String>, s: Seq<char>) -> bool {
    if seq_has_str(prev, s) {
        cur == prev
    } else {
        added_str(prev, cur, s)
    }
}

/// `cur` is `prev` with one worktree at `path` on `branch` appended.
pub open spec fn added_wt(
    prev: Seq<WorktreeEntry>,
    cur: Seq<WorktreeEntry>,
    path: Seq<char>,
    branch: Seq<char>,
) -> bool {
    &&& cur.len() == prev.len() + 1
    &&& cur.take(prev.len() as int) == prev
    &&& cur.last().path@ == path
    &&& cur.last().branch@ == branch
}

/// `cur` is `prev` with one upstream pair appended.
pub open spec fn added_upstream(
    prev: Seq<(String, String)>,
    cur: Seq<(String, String)>,
    branch: Seq<char>,
    up: Seq<char>,
) -> bool {
    &&& cur.len() == prev.len() + 1
    &&& cur.take(prev.len() as int) == prev
    &&& cur.last().0@ == branch
    &&& cur.last().1@ == up
}

/// When worktree creation succeeds: inside a repository, no worktree at the
/// directory or on the branch yet, the branch new when it is to be created
/// and existing when not, and the base resolvable when one is given.
pub open spec fn spec_can_create_worktree(
    vcs: VcsState,
    path: Seq<char>,
    branch: Seq<char>,
    create_branch: bool,
    base: Option<Seq<char>>,
) -> bool {
    &&& vcs.in_repo
    &&& first_wt_with_path(vcs.worktrees@, path) == -1
    &&& first_wt_with_branch(vcs.worktrees@, branch) == -1
    &&& (create_branch ==> !seq_has_str(vcs.branches@, branch))
    &&& (!create_branch ==> seq_has_str(vcs.branches@, branch))
    &&& (base matches Some(b) ==> seq_has_str(vcs.branches@, b))
}

/// Materializes a worktree, creating its branch when asked; tracking is
/// kept only when a base is given and `track_upstream` is set.
pub fn create_worktree(
    vcs: &mut VcsState,
    worktree_path: &str,
    branch_name: &str,
    create_branch: bool,
    base_branch: Option<&str>,
    track_upstream: bool,
) -> (r: Result<(), WorkmuxError>)
    ensures
        r is Ok <==> spec_can_create_worktree(
            *old(vcs),
            worktree_path@,
            branch_name@,
            create_branch,
            view_opt_str(base_branch),
        ),
        r is Err ==> *final(vcs) == *old(vcs),
        r matches Err(e) ==> (e == WorkmuxError::NotARepository || e
            matches WorkmuxError::AlreadyExists(_) || e matches WorkmuxError::NotFound(_)),
        r is Ok ==> *final(vcs) == (VcsState {
            worktrees: final(vcs).worktrees,
            branches: final(vcs).branches,
            upstreams: final(vcs).upstreams,
            ..*old(vcs)
        }),
        r is Ok ==> added_wt(
            old(vcs).worktrees@,
            final(vcs).worktrees@,
            worktree_path@,
            branch_name@,
        ),
        r is Ok ==> if create_branch {
            added_str(old(vcs).branches@, final(vcs).branches@, branch_name@)
        } else {
            final(vcs).branches == old(vcs).branches
        },
        r is Ok ==> if create_branch && track_upstream && base_branch is Some {
            added_upstream(
                old(vcs).upstreams@,
                final(vcs).upstreams@,
                branch_name@,
                base_branch->0@,
            )
        } else {
            final(vcs).upstreams == old(vcs).upstreams
        },
{
    if !vcs.in_repo {
        return Err(WorkmuxError::NotARepository);
    }
    if wt_index_by_path(&vcs.worktrees, worktree_path).is_some() {
        return Err(WorkmuxError::AlreadyExists(String::from_str(worktree_path)));
    }
    if wt_index_by_branch(&vcs.worktrees, branch_name).is_some() {
        return Err(WorkmuxError::AlreadyExists(String::from_str(branch_name)));
    }
    let branch_known = vec_has_str(&vcs.branches, branch_name);
    if create_branch && branch_known {
        return Err(WorkmuxError::AlreadyExists(String::from_str(branch_name)));
    }
    if !create_branch && !branch_known {
        return Err(WorkmuxError::NotFound(String::from_str(branch_name)));
    }
    match base_branch {
        Some(b) => {
            if !vec_has_str(&vcs.branches, b) {
                return Err(WorkmuxError::NotFound(String::from_str(b)));
            }
        },
        None => {},
    }
    let entry = WorktreeEntry {
        path: String::from_str(worktree_path),
        branch: String::from_str(branch_name),
    };
    let ghost prev_wt = vcs.worktrees@;
    vcs.worktrees.push(entry);
    proof {
        assert(vcs.worktrees@.take(prev_wt.len() as int) =~= prev_wt);
    }
    if create_branch {
        let ghost prev_b = vcs.branches@;
        vcs.branches.push(String::from_str(branch_name));
        proof {
            assert(vcs.branches@.take(prev_b.len() as int) =~= prev_b);
        }
        if track_upstream {
            match base_branch {
                Some(b) => {
                    let ghost prev_u = vcs.upstreams@;
                    vcs.upstreams.push((String::from_str(branch_name), String::from_str(b)));
                    proof {
                        assert(vcs.upstreams@.take(prev_u.len() as int) =~= prev_u);
                    }
                },
                None => {},
            }
        }
    }
    Ok(())
}




/// The worktrees without every entry at directory `p`.
pub open spec fn spec_remove_wt_at(ws: Seq<WorktreeEntry>, p: Seq<char>) -> Seq<WorktreeEntry>
    decreases ws.len(),
{
    if ws.len() == 0 {
        ws
    } else {
        let rest = spec_remove_wt_at(ws.skip(1), p);
        if ws[0].path@ == p {
            rest
        } else {
            seq![ws[0]] + rest
        }
    }
}

/// `spec_remove_wt_at` distributes over appending one entry.
proof fn lemma_remove_wt_at_push(ws: Seq<WorktreeEntry>, p: Seq<char>, e: WorktreeEntry)
    ensures
        spec_remove_wt_at(ws.push(e), p) == if e.path@ == p {
            spec_remove_wt_at(ws, p)
        } else {
            spec_remove_wt_at(ws, p) + seq![e]
        },
    decreases ws.len(),
{
    if ws.len() == 0 {
        assert(ws.push(e).skip(1) =~= Seq::<WorktreeEntry>::empty());
        assert(ws.push(e)[0] == e);
        assert(spec_remove_wt_at(ws.push(e).skip(1), p) =~= Seq::<WorktreeEntry>::empty());
        if e.path@ == p {
        } else {
            assert(spec_remove_wt_at(ws.push(e), p) =~= seq![e]);
            assert(spec_remove_wt_at(ws, p) + seq![e] =~= seq![e]);
        }
    } else {
        assert(ws.push(e).skip(1) =~= ws.skip(1).push(e));
        lemma_remove_wt_at_push(ws.skip(1), p, e);
        if e.path@ == p {
        } else {
            if ws[0].path@ == p {
            } else {
                assert(seq![ws[0]] + (spec_remove_wt_at(ws.skip(1), p) + seq![e]) =~= (seq![ws[0]]
                    + spec_remove_wt_at(ws.skip(1), p)) + seq![e]);
            }
        }
    }
}

/// The worktrees whose directories are still on disk.
pub open spec fn spec_prune_worktrees(ws: Seq<WorktreeEntry>, missing: Seq<String>) -> Seq<
    WorktreeEntry,
>
    decreases ws.len(),
{
    if ws.len() == 0 {
        ws
    } else {
        let rest = spec_prune_worktrees(ws.skip(1), missing);
        if seq_has_str(missing, ws[0].path@) {
            rest
        } else {
            seq![ws[0]] + rest
        }
    }
}

/// `spec_prune_worktrees` distributes over appending one entry.
proof fn lemma_prune_worktrees_push(ws: Seq<WorktreeEntry>, missing: Seq<String>, e: WorktreeEntry)
    ensures
        spec_prune_worktrees(ws.push(e), missing) == if seq_has_str(missing, e.path@) {
            spec_prune_worktrees(ws, missing)
        } else {
            spec_prune_worktrees(ws, missing) + seq![e]
        },
    decreases ws.len(),
{
    if ws.len() == 0 {
        assert(ws.push(e).skip(1) =~= Seq::<WorktreeEntry>::empty());
        assert(ws.push(e)[0] == e);
        assert(spec_prune_worktrees(ws.push(e).skip(1), missing) =~= Seq::<WorktreeEntry>::empty());
        if seq_has_str(missing, e.path@) {
        } else {
            assert(spec_prune_worktrees(ws.push(e), missing) =~= seq![e]);
            assert(spec_prune_worktrees(ws, missing) + seq![e] =~= seq![e]);
        }
    } else {
        assert(ws.push(e).skip(1) =~= ws.skip(1).push(e));
        lemma_prune_worktrees_push(ws.skip(1), missing, e);
        if seq_has_str(missing, e.path@) {
        } else {
            if seq_has_str(missing, ws[0].path@) {
            } else {
                assert(seq![ws[0]] + (spec_prune_worktrees(ws.skip(1), missing) + seq![e]) =~= (
                seq![ws[0]] + spec_prune_worktrees(ws.skip(1), missing)) + seq![e]);
            }
        }
    }
}

/// Drops registrations of worktrees whose directories are gone; fails only
/// when no worktree at all is registered.
pub fn prune_worktrees(vcs: &mut VcsState) -> (r: Result<(), WorkmuxError>)
    ensures
        r is Ok <==> old(vcs).worktrees@.len() > 0,
        r is Ok ==> *final(vcs) == (VcsState { worktrees: final(vcs).worktrees, ..*old(vcs) }),
        r is Ok ==> final(vcs).worktrees@ == spec_prune_worktrees(
            old(vcs).worktrees@,
            old(vcs).missing_paths@,
        ),
        r is Err ==> *final(vcs) == *old(vcs),
        r matches Err(e) ==> e matches WorkmuxError::NotFound(_),
{
    if vcs.worktrees.len() == 0 {
        return Err(WorkmuxError::NotFound(String::from_str("main worktree")));
    }
    let n: usize = vcs.worktrees.len();
    let mut kept: Vec<WorktreeEntry> = Vec::new();
    let mut i: usize = 0;
    while i < n
        invariant
            n == vcs.worktrees@.len(),
            0 <= i <= n,
            *vcs == *old(vcs),
            kept@ == spec_prune_worktrees(vcs.worktrees@.take(i as int), vcs.missing_paths@),
        decreases n - i,
    {
        proof {
            assert(vcs.worktrees@.take(i + 1) =~= vcs.worktrees@.take(i as int).push(
                vcs.worktrees@[i as int],
            ));
            lemma_prune_worktrees_push(
                vcs.worktrees@.take(i as int),
                vcs.missing_paths@,
                vcs.worktrees@[i as int],
            );
        }
        if !vec_has_str(&vcs.missing_paths, vcs.worktrees[i].path.as_str()) {
            let entry = WorktreeEntry {
                path: vcs.worktrees[i].path.clone(),
                branch: vcs.worktrees[i].branch.clone(),
            };
            assert(entry == vcs.worktrees@[i as int]);
            kept.push(entry);
        }
        i = i + 1;
    }
    proof {
        assert(vcs.worktrees@.take(n as int) =~= vcs.worktrees@);
    }
    vcs.worktrees = kept;
    Ok(())
}

/// When worktree removal succeeds: the registration exists and removal is
/// not failing.
pub open spec fn spec_can_remove_worktree(vcs: VcsState, path: Seq<char>) -> bool {
    &&& !vcs.fail_worktree_remove
    &&& first_wt_with_path(vcs.worktrees@, path) >= 0
}

/// Removes the worktree registered at `worktree_path`. The invocation is
/// recorded whether or not it succeeds.
pub fn remove_worktree(vcs: &mut VcsState, worktree_path: &str) -> (r: Result<(), WorkmuxError>)
    ensures
        r is Ok <==> spec_can_remove_worktree(*old(vcs), worktree_path@),
        r is Ok ==> *final(vcs) == (VcsState {
            worktrees: final(vcs).worktrees,
            worktree_remove_calls: bumped(old(vcs).worktree_remove_calls),
            ..*old(vcs)
        }),
        r is Ok ==> final(vcs).worktrees@ == spec_remove_wt_at(old(vcs).worktrees@, worktree_path@),
        r is Err ==> *final(vcs) == (VcsState {
            worktree_remove_calls: bumped(old(vcs).worktree_remove_calls),
            ..*old(vcs)
        }),
        r matches Err(e) ==> e matches WorkmuxError::CommandFailed(_),
{
    vcs.worktree_remove_calls = bump(vcs.worktree_remove_calls);
    if vcs.fail_worktree_remove {
        return Err(WorkmuxError::CommandFailed(String::from_str(worktree_path)));
    }
    if wt_index_by_path(&vcs.worktrees, worktree_path).is_none() {
        return Err(WorkmuxError::CommandFailed(String::from_str(worktree_path)));
    }
    let n: usize = vcs.worktrees.len();
    let mut kept: Vec<WorktreeEntry> = Vec::new();
    let mut i: usize = 0;
    while i < n
        invariant
            n == vcs.worktrees@.len(),
            0 <= i <= n,
            vcs.worktrees == old(vcs).worktrees,
            kept@ == spec_remove_wt_at(vcs.worktrees@.take(i as int), worktree_path@),
        decreases n - i,
    {
        proof {
            assert(vcs.worktrees@.take(i + 1) =~= vcs.worktrees@.take(i as int).push(
                vcs.worktrees@[i as int],
            ));
            lemma_remove_wt_at_push(
                vcs.worktrees@.take(i as int),
                worktree_path@,
                vcs.worktrees@[i as int],
            );
        }
        if !str_eq(vcs.worktrees[i].path.as_str(), worktree_path) {
            let entry = WorktreeEntry {
                path: vcs.worktrees[i].path.clone(),
                branch: vcs.worktrees[i].branch.clone(),
            };
            assert(entry == vcs.worktrees@[i as int]);
            kept.push(entry);
        }
        i = i + 1;
    }
    proof {
        assert(vcs.worktrees@.take(n as int) =~= vcs.worktrees@);
    }
    vcs.worktrees = kept;
    Ok(())
}

/// When branch deletion succeeds: deletion is not failing, the branch
/// exists, is checked out in no worktree, and is merged unless forced.
pub open spec fn spec_can_delete_branch(vcs: VcsState, b: Seq<char>, force: bool) -> bool {
    &&& !vcs.fail_branch_delete
    &&& seq_has_str(vcs.branches@, b)
    &&& first_wt_with_branch(vcs.worktrees@, b) == -1
    &&& (force || !seq_has_str(vcs.unmerged@, b))
}

/// Deletes a local branch, forcing past unmerged commits only when asked.
/// Needs a main worktree to run from; once one is found the invocation is
/// recorded whether or not it succeeds.
pub fn delete_branch(vcs: &mut VcsState, branch_name: &str, force: bool) -> (r: Result<
    (),
    WorkmuxError,
>)
    ensures
        old(vcs).worktrees@.len() == 0 ==> *final(vcs) == *old(vcs) && (r matches Err(e) && e
            matches WorkmuxError::NotFound(_)),
        old(vcs).worktrees@.len() > 0 ==> (r is Ok <==> spec_can_delete_branch(
            *old(vcs),
            branch_name@,
            force,
        )),
        r is Ok ==> *final(vcs) == (VcsState {
            branches: final(vcs).branches,
            branch_delete_calls: bumped(old(vcs).branch_delete_calls),
            ..*old(vcs)
        }),
        r is Ok ==> final(vcs).branches@ == spec_remove_str(old(vcs).branches@, branch_name@),
        old(vcs).worktrees@.len() > 0 && r is Err ==> *final(vcs) == (VcsState {
            branch_delete_calls: bumped(old(vcs).branch_delete_calls),
            ..*old(vcs)
        }) && (r matches Err(e) && e matches WorkmuxError::CommandFailed(_)),
{
    if vcs.worktrees.len() == 0 {
        return Err(WorkmuxError::NotFound(String::from_str("main worktree")));
    }
    vcs.branch_delete_calls = bump(vcs.branch_delete_calls);
    if vcs.fail_branch_delete {
        return Err(WorkmuxError::CommandFailed(String::from_str(branch_name)));
    }
    if !vec_has_str(&vcs.branches, branch_name) {
        return Err(WorkmuxError::CommandFailed(String::from_str(branch_name)));
    }
    if wt_index_by_branch(&vcs.worktrees, branch_name).is_some() {
        return Err(WorkmuxError::CommandFailed(String::from_str(branch_name)));
    }
    if !force && vec_has_str(&vcs.unmerged, branch_name) {
        return Err(WorkmuxError::CommandFailed(String::from_str(branch_name)));
    }
    let kept = remove_str(&vcs.branches, branch_name);
    vcs.branches = kept;
    Ok(())
}

/// Deletes a branch on the default remote; its remote-tracking branch goes
/// with it. The invocation is recorded whether or not it succeeds.
pub fn delete_remote_branch(vcs: &mut VcsState, branch_name: &str) -> (r: Result<(), WorkmuxError>)
    ensures
        r is Ok <==> !old(vcs).fail_remote_delete,
        r is Ok ==> *final(vcs) == (VcsState {
            branches: final(vcs).branches,
            remote_delete_calls: bumped(old(vcs).remote_delete_calls),
            ..*old(vcs)
        }),
        r is Ok ==> final(vcs).branches@ == spec_remove_str(
            old(vcs).branches@,
            "origin/"@ + branch_name@,
        ),
        r is Err ==> *final(vcs) == (VcsState {
            remote_delete_calls: bumped(old(vcs).remote_delete_calls),
            ..*old(vcs)
        }),
        r matches Err(e) ==> e matches WorkmuxError::CommandFailed(_),
{
    vcs.remote_delete_calls = bump(vcs.remote_delete_calls);
    if vcs.fail_remote_delete {
        return Err(WorkmuxError::CommandFailed(String::from_str(branch_name)));
    }
    let mut remote_ref = String::from_str("origin/");
    remote_ref.append(branch_name);
    let kept = remove_str(&vcs.branches, remote_ref.as_str());
    vcs.branches = kept;
    Ok(())
}

/// Merges `branch_name` into the branch checked out at `worktree_path`; a
/// conflict fails and changes nothing.
pub fn merge_in_worktree(vcs: &mut VcsState, worktree_path: &str, branch_name: &str) -> (r: Result<
    (),
    WorkmuxError,
>)
    ensures
        r is Ok <==> !old(vcs).fail_merge,
        *final(vcs) == *old(vcs),
        r matches Err(e) ==> e matches WorkmuxError::CommandFailed(_),
{
    if vcs.fail_merge {
        Err(WorkmuxError::CommandFailed(String::from_str(branch_name)))
    } else {
        Ok(())
    }
}

/// Rebases the branch checked out at `worktree_path` onto `base_branch`; a
/// conflict fails and changes nothing.
pub fn rebase_branch_onto_base(vcs: &mut VcsState, worktree_path: &str, base_branch: &str) -> (r:
    Result<(), WorkmuxError>)
    ensures
        r is Ok <==> !old(vcs).fail_merge,
        *final(vcs) == *old(vcs),
        r matches Err(e) ==> e matches WorkmuxError::CommandFailed(_),
{
    if vcs.fail_merge {
        Err(WorkmuxError::CommandFailed(String::from_str(base_branch)))
    } else {
        Ok(())
    }
}

/// Squash-merges `branch_name` into the worktree at `worktree_path`,
/// leaving the changes staged and uncommitted there for manual review.
pub fn merge_squash_in_worktree(vcs: &mut VcsState, worktree_path: &str, branch_name: &str) -> (r:
    Result<(), WorkmuxError>)
    ensures
        r is Ok <==> !old(vcs).fail_merge,
        r is Ok ==> *final(vcs) == (VcsState {
            staged_paths: final(vcs).staged_paths,
            dirty_paths: final(vcs).dirty_paths,
            ..*old(vcs)
        }),
        r is Ok ==> added_str_if_absent(
            old(vcs).staged_paths@,
            final(vcs).staged_paths@,
            worktree_path@,
        ),
        r is Ok ==> added_str_if_absent(
            old(vcs).dirty_paths@,
            final(vcs).dirty_paths@,
            worktree_path@,
        ),
        r is Err ==> *final(vcs) == *old(vcs),
        r matches Err(e) ==> e matches WorkmuxError::CommandFailed(_),
{
    if vcs.fail_merge {
        return Err(WorkmuxError::CommandFailed(String::from_str(branch_name)));
    }
    if !vec_has_str(&vcs.staged_paths, worktree_path) {
        let ghost prev = vcs.staged_paths@;
        vcs.staged_paths.push(String::from_str(worktree_path));
        proof {
            assert(vcs.staged_paths@.take(prev.len() as int) =~= prev);
        }
    }
    if !vec_has_str(&vcs.dirty_paths, worktree_path) {
        let ghost prev = vcs.dirty_paths@;
        vcs.dirty_paths.push(String::from_str(worktree_path));
        proof {
            assert(vcs.dirty_paths@.take(prev.len() as int) =~= prev);
        }
    }
    Ok(())
}

/// When a branch switch succeeds: the worktree exists, the branch exists,
/// and it is checked out nowhere else.
pub open spec fn spec_can_switch_branch(vcs: VcsState, path: Seq<char>, b: Seq<char>) -> bool {
    let k = first_wt_with_path(vcs.worktrees@, path);
    let kb = first_wt_with_branch(vcs.worktrees@, b);
    &&& k >= 0
    &&& seq_has_str(vcs.branches@, b)
    &&& (kb == -1 || kb == k)
}

/// Checks out a different branch in the worktree at `worktree_path`.
pub fn switch_branch_in_worktree(vcs: &mut VcsState, worktree_path: &str, branch_name: &str) -> (r:
    Result<(), WorkmuxError>)
    ensures
        r is Ok <==> spec_can_switch_branch(*old(vcs), worktree_path@, branch_name@),
        r is Ok ==> *final(vcs) == (VcsState { worktrees: final(vcs).worktrees, ..*old(vcs) }),
        r is Ok ==> ({
            let k = first_wt_with_path(old(vcs).worktrees@, worktree_path@);
            &&& final(vcs).worktrees@.len() == old(vcs).worktrees@.len()
            &&& (forall|j: int|
                0 <= j < old(vcs).worktrees@.len() && j != k ==> final(vcs).worktrees@[j] == old(
                    vcs,
                ).worktrees@[j])
            &&& final(vcs).worktrees@[k].path@ == old(vcs).worktrees@[k].path@
            &&& final(vcs).worktrees@[k].branch@ == branch_name@
        }),
        r is Err ==> *final(vcs) == *old(vcs),
        r matches Err(e) ==> (e matches WorkmuxError::NotFound(_) || e
            matches WorkmuxError::AlreadyExists(_)),
{
    let k = match wt_index_by_path(&vcs.worktrees, worktree_path) {
        Some(k) => k,
        None => {
            return Err(WorkmuxError::NotFound(String::from_str(worktree_path)));
        },
    };
    if !vec_has_str(&vcs.branches, branch_name) {
        return Err(WorkmuxError::NotFound(String::from_str(branch_name)));
    }
    match wt_index_by_branch(&vcs.worktrees, branch_name) {
        Some(kb) => {
            if kb != k {
                return Err(WorkmuxError::AlreadyExists(String::from_str(branch_name)));
            }
        },
        None => {},
    }
    let entry = WorktreeEntry {
        path: vcs.worktrees[k].path.clone(),
        branch: String::from_str(branch_name),
    };
    vcs.worktrees[k] = entry;
    Ok(())
}

/// Moves the uncommitted changes of the worktree at `from` into the
/// worktree at `to` by a patch-based transfer, leaving `from` clean.
/// Untracked files move only when asked; when they stay behind, `from`
/// remains dirty with exactly those files.
pub fn move_changes(vcs: &mut VcsState, from: &str, to: &str, include_untracked: bool) -> (r:
    Result<(), WorkmuxError>)
    ensures
        r is Ok,
        *final(vcs) == (VcsState {
            dirty_paths: final(vcs).dirty_paths,
            staged_paths: final(vcs).staged_paths,
            unstaged_paths: final(vcs).unstaged_paths,
            untracked_paths: final(vcs).untracked_paths,
            ..*old(vcs)
        }),
        final(vcs).staged_paths@ == spec_remove_str(old(vcs).staged_paths@, from@),
        final(vcs).unstaged_paths@ == spec_remove_str(old(vcs).unstaged_paths@, from@),
        include_untracked ==> final(vcs).untracked_paths@ == spec_remove_str(
            old(vcs).untracked_paths@,
            from@,
        ),
        !include_untracked ==> final(vcs).untracked_paths == old(vcs).untracked_paths,
        ({
            let keeps_untracked = !include_untracked && seq_has_str(
                old(vcs).untracked_paths@,
                from@,
            );
            let cleared = if keeps_untracked {
                old(vcs).dirty_paths@
            } else {
                spec_remove_str(old(vcs).dirty_paths@, from@)
            };
            added_str_if_absent(cleared, final(vcs).dirty_paths@, to@)
        }),
{
    let kept = remove_str(&vcs.staged_paths, from);
    vcs.staged_paths = kept;
    let kept_unstaged = remove_str(&vcs.unstaged_paths, from);
    vcs.unstaged_paths = kept_unstaged;
    let mut keeps_untracked = false;
    if include_untracked {
        let kept_untracked = remove_str(&vcs.untracked_paths, from);
        vcs.untracked_paths = kept_untracked;
    } else {
        keeps_untracked = vec_has_str(&vcs.untracked_paths, from);
    }
    if !keeps_untracked {
        let kept_dirty = remove_str(&vcs.dirty_paths, from);
        vcs.dirty_paths = kept_dirty;
    }
    if !vec_has_str(&vcs.dirty_paths, to) {
        let ghost prev = vcs.dirty_paths@;
        vcs.dirty_paths.push(String::from_str(to));
        proof {
            assert(vcs.dirty_paths@.take(prev.len() as int) =~= prev);
        }
    }
    Ok(())
}

/// Commits the staged changes in the worktree at `worktree_path`; the
/// worktree stays dirty only while unstaged changes or untracked files
/// remain there.
pub fn commit_staged_changes(vcs: &mut VcsState, worktree_path: &str) -> (r: Result<
    (),
    WorkmuxError,
>)
    ensures
        r is Ok <==> !old(vcs).fail_commit,
        r is Ok ==> *final(vcs) == (VcsState {
            staged_paths: final(vcs).staged_paths,
            dirty_paths: final(vcs).dirty_paths,
            ..*old(vcs)
        }),
        r is Ok ==> final(vcs).staged_paths@ == spec_remove_str(
            old(vcs).staged_paths@,
            worktree_path@,
        ),
        r is Ok ==> final(vcs).dirty_paths@ == if seq_has_str(
            old(vcs).unstaged_paths@,
            worktree_path@,
        ) || seq_has_str(old(vcs).untracked_paths@, worktree_path@) {
            old(vcs).dirty_paths@
        } else {
            spec_remove_str(old(vcs).dirty_paths@, worktree_path@)
        },
        r is Err ==> *final(vcs) == *old(vcs),
        r matches Err(e) ==> e matches WorkmuxError::CommandFailed(_),
{
    if vcs.fail_commit {
        return Err(WorkmuxError::CommandFailed(String::from_str(worktree_path)));
    }
    let kept = remove_str(&vcs.staged_paths, worktree_path);
    vcs.staged_paths = kept;
    if !vec_has_str(&vcs.unstaged_paths, worktree_path) && !vec_has_str(
        &vcs.untracked_paths,
        worktree_path,
    ) {
        let kept_dirty = remove_str(&vcs.dirty_paths, worktree_path);
        vcs.dirty_paths = kept_dirty;
    }
    Ok(())
}

} // verus!
