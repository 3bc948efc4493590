//! Materializing one worktree/window pair from a spec.

use vstd::prelude::*;
use vstd::string::*;

use crate::errors::WorkmuxError;
use crate::git::{
    added_str, added_wt, branch_exists, create_worktree, first_wt_with_branch, first_wt_with_path,
    spec_can_create_worktree, view_wt_entries, VcsState, WorktreeEntry,
};
use crate::mux::{bumped, create_window, focus_window, window_exists, MuxState};
use crate::naming::{derive_handle, slug_of, spec_handle_source, view_opt_str, view_opt_string};
use crate::strutil::{lemma_view_strs_index, seq_has_str, view_strs};
use crate::template::WorktreeSpec;
use crate::workflow::context::WorkflowContext;
use crate::workflow::hooks::{hooks_run_count, spec_hooks_for, HookPhase};
use crate::workflow::types::{CreateResult, SetupOptions};

verus! {

/// The directory a handle's worktree lives in: a sibling tree named after
/// the repository, with one directory per handle.
pub open spec fn spec_worktree_path(context: WorkflowContext, handle: Seq<char>) -> Seq<char> {
    context.repo_root@ + "-worktrees/"@ + handle
}

/// The worktree directory for a handle.
pub fn worktree_path_for(context: &WorkflowContext, handle: &str) -> (r: String)
    ensures
        r@ == spec_worktree_path(*context, handle@),
{
    let mut p = context.repo_root.clone();
    p.append("-worktrees/");
    p.append(handle);
    p
}

/// A worktree's directory always ends in its handle: whatever the
/// repository root, the final segment of the path a handle is given is
/// the handle itself — under the full naming strategy with no prefix,
/// that is the branch name's slug.
pub proof fn lemma_worktree_path_ends_with_handle(context: WorkflowContext, h: Seq<char>)
    ensures
        spec_worktree_path(context, h).len() >= h.len(),
        spec_worktree_path(context, h).subrange(
            spec_worktree_path(context, h).len() - h.len(),
            spec_worktree_path(context, h).len() as int,
        ) == h,
{
    assert(spec_worktree_path(context, h).subrange(
        spec_worktree_path(context, h).len() - h.len(),
        spec_worktree_path(context, h).len() as int,
    ) =~= h);
}

/// Materializes the worktree and branch for one spec, opens its window,
/// and reports how many post-create hooks run. The branch is created when
/// it does not exist yet, optionally from a base; an existing branch is
/// checked out as it is. Nothing is mutated when any precondition fails.
pub fn create(
    context: &WorkflowContext,
    branch_name: &str,
    handle: &str,
    base_branch: Option<&str>,
    options: &SetupOptions,
    vcs: &mut VcsState,
    mux: &mut MuxState,
) -> (r: Result<CreateResult, WorkmuxError>)
    ensures
        ({
            let path = spec_worktree_path(*context, handle@);
            let full = context.prefix@ + handle@;
            let create_branch = !seq_has_str(old(vcs).branches@, branch_name@);
            &&& (r is Ok <==> old(mux).running && !seq_has_str(old(mux).windows@, full)
                && spec_can_create_worktree(
                *old(vcs),
                path,
                branch_name@,
                create_branch,
                view_opt_str(base_branch),
            ))
            &&& (r is Err ==> *final(vcs) == *old(vcs) && *final(mux) == *old(mux))
            &&& (r is Ok ==> *final(vcs) == (VcsState {
                worktrees: final(vcs).worktrees,
                branches: final(vcs).branches,
                upstreams: final(vcs).upstreams,
                ..*old(vcs)
            }))
            &&& (r is Ok ==> final(vcs).upstreams == old(vcs).upstreams)
            &&& (r is Ok ==> added_wt(old(vcs).worktrees@, final(vcs).worktrees@, path, branch_name@))
            &&& (r is Ok ==> (create_branch ==> added_str(
                old(vcs).branches@,
                final(vcs).branches@,
                branch_name@,
            )))
            &&& (r is Ok ==> (!create_branch ==> final(vcs).branches == old(vcs).branches))
            &&& (r is Ok ==> ({
                let prev = old(mux).windows@;
                let cur = final(mux).windows@;
                &&& cur.len() == prev.len() + 1
                &&& cur.take(prev.len() as int) == prev
                &&& cur.last()@ == full
                &&& final(mux).create_calls == bumped(old(mux).create_calls)
                &&& (options.focus_window ==> (final(mux).focused matches Some(f) && f@ == full))
            }))
            &&& (r is Ok ==> *final(mux) == (MuxState {
                windows: final(mux).windows,
                focused: final(mux).focused,
                create_calls: final(mux).create_calls,
                focus_calls: final(mux).focus_calls,
                ..*old(mux)
            }))
            &&& (r matches Ok(res) ==> ({
                &&& res.branch_name@ == branch_name@
                &&& res.worktree_path@ == path
                &&& (match res.base_branch {
                    Some(b) => base_branch matches Some(ob) && b@ == ob@,
                    None => base_branch is None,
                })
                &&& (options.run_hooks ==> res.post_create_hooks_run == spec_hooks_for(
                    context.config,
                    HookPhase::PostCreate,
                ).len())
                &&& (!options.run_hooks ==> res.post_create_hooks_run == 0)
            }))
            &&& (r matches Err(e) ==> (e matches WorkmuxError::CommandFailed(_) || e
                matches WorkmuxError::AlreadyExists(_) || e matches WorkmuxError::NotFound(_) || e
                == WorkmuxError::NotARepository))
        }),
{
    if !mux.running {
        return Err(WorkmuxError::CommandFailed(String::from_str("no multiplexer server")));
    }
    // Check the window name before touching the version-control side, so a
    // name collision leaves no half-materialized pair behind.
    if window_exists(mux, context.prefix.as_str(), handle) {
        return Err(WorkmuxError::AlreadyExists(String::from_str(handle)));
    }
    let worktree_path = worktree_path_for(context, handle);
    let create_branch = !branch_exists(vcs, branch_name);
    match create_worktree(
        vcs,
        worktree_path.as_str(),
        branch_name,
        create_branch,
        base_branch,
        false,
    ) {
        Ok(()) => {},
        Err(e) => {
            return Err(e);
        },
    }
    match create_window(mux, context.prefix.as_str(), handle, worktree_path.as_str()) {
        Ok(()) => {},
        Err(e) => {
            return Err(e);
        },
    }
    if options.focus_window {
        proof {
            let full = context.prefix@ + handle@;
            assert(mux.windows@[mux.windows@.len() - 1]@ == full);
            assert(seq_has_str(mux.windows@, full));
        }
        match focus_window(mux, context.prefix.as_str(), handle) {
            Ok(()) => {},
            Err(e) => {
                return Err(e);
            },
        }
    }
    let hooks_run = hooks_run_count(&context.config, HookPhase::PostCreate, options.run_hooks);
    let base_owned: Option<String> = match base_branch {
        Some(b) => Some(String::from_str(b)),
        None => None,
    };
    Ok(
        CreateResult {
            branch_name: String::from_str(branch_name),
            worktree_path,
            base_branch: base_owned,
            post_create_hooks_run: hooks_run,
        },
    )
}

/// A view of the engine state that spec-list creation reads and grows:
/// the worktree pairs, the branch names, and the full window names, each
/// at the level of character sequences.
#[verifier::ext_equal]
pub struct EngineView {
    /// Directory and branch of each registered worktree.
    pub worktrees: Seq<(Seq<char>, Seq<char>)>,
    /// Existing branch names.
    pub branches: Seq<Seq<char>>,
    /// Full names of the existing windows.
    pub windows: Seq<Seq<char>>,
}

/// The view of the modelled collaborator state.
pub open spec fn engine_view(vcs: VcsState, mux: MuxState) -> EngineView {
    EngineView {
        worktrees: view_wt_entries(vcs.worktrees@),
        branches: view_strs(vcs.branches@),
        windows: view_strs(mux.windows@),
    }
}

/// Whether some entry of `v` is the sequence `x`.
pub open spec fn contains_view(v: Seq<Seq<char>>, x: Seq<char>) -> bool {
    exists|i: int| 0 <= i < v.len() && #[trigger] v[i] == x
}

/// Whether some worktree pair sits at directory `p`.
pub open spec fn contains_wt_path(ps: Seq<(Seq<char>, Seq<char>)>, p: Seq<char>) -> bool {
    exists|i: int| 0 <= i < ps.len() && (#[trigger] ps[i]).0 == p
}

/// Whether some worktree pair holds branch `b`.
pub open spec fn contains_wt_branch(ps: Seq<(Seq<char>, Seq<char>)>, b: Seq<char>) -> bool {
    exists|i: int| 0 <= i < ps.len() && (#[trigger] ps[i]).1 == b
}

/// The handle one spec derives under the context's naming configuration.
pub open spec fn spec_step_handle(
    sp: WorktreeSpec,
    context: WorkflowContext,
    explicit: Option<Seq<char>>,
) -> Seq<char> {
    slug_of(
        spec_handle_source(
            sp.branch_name@,
            explicit,
            context.config.worktree_naming,
            view_opt_string(context.config.worktree_prefix),
        ),
    )
}

/// When materializing one spec succeeds against engine state `st`: its
/// handle is non-empty, a server runs inside a repository, its window name
/// and worktree directory are free, its branch is checked out nowhere, and
/// the base — when one is given — exists.
pub open spec fn spec_step_ok(
    st: EngineView,
    context: WorkflowContext,
    explicit: Option<Seq<char>>,
    base: Option<Seq<char>>,
    running: bool,
    in_repo: bool,
    sp: WorktreeSpec,
) -> bool {
    let h = spec_step_handle(sp, context, explicit);
    let path = spec_worktree_path(context, h);
    &&& h.len() > 0
    &&& running
    &&& !contains_view(st.windows, context.prefix@ + h)
    &&& in_repo
    &&& !contains_wt_path(st.worktrees, path)
    &&& !contains_wt_branch(st.worktrees, sp.branch_name@)
    &&& (base matches Some(bb) ==> contains_view(st.branches, bb))
}

/// The engine state after materializing one spec: its worktree pair and
/// window are appended, and its branch when it did not exist yet.
pub open spec fn spec_step_next(
    st: EngineView,
    context: WorkflowContext,
    explicit: Option<Seq<char>>,
    sp: WorktreeSpec,
) -> EngineView {
    let h = spec_step_handle(sp, context, explicit);
    let path = spec_worktree_path(context, h);
    let b = sp.branch_name@;
    EngineView {
        worktrees: st.worktrees.push((path, b)),
        branches: if contains_view(st.branches, b) {
            st.branches
        } else {
            st.branches.push(b)
        },
        windows: st.windows.push(context.prefix@ + h),
    }
}

/// The engine state after materializing the first `i` specs in order.
pub open spec fn spec_state_after(
    specs: Seq<WorktreeSpec>,
    i: int,
    st: EngineView,
    context: WorkflowContext,
    explicit: Option<Seq<char>>,
) -> EngineView
    decreases i,
{
    if i <= 0 {
        st
    } else {
        spec_step_next(
            spec_state_after(specs, i - 1, st, context, explicit),
            context,
            explicit,
            specs[i - 1],
        )
    }
}

/// Whether every spec from position `i` on can be materialized in order,
/// each against the state the ones before it left behind.
pub open spec fn spec_specs_ok_from(
    specs: Seq<WorktreeSpec>,
    i: int,
    st: EngineView,
    context: WorkflowContext,
    explicit: Option<Seq<char>>,
    base: Option<Seq<char>>,
    running: bool,
    in_repo: bool,
) -> bool
    decreases specs.len() - i,
{
    if i < 0 || i >= specs.len() {
        true
    } else {
        &&& spec_step_ok(st, context, explicit, base, running, in_repo, specs[i])
        &&& spec_specs_ok_from(
            specs,
            i + 1,
            spec_step_next(st, context, explicit, specs[i]),
            context,
            explicit,
            base,
            running,
            in_repo,
        )
    }
}

/// String-list membership carries over to the view level.
proof fn lemma_view_strs_membership(v: Seq<String>, x: Seq<char>)
    ensures
        seq_has_str(v, x) <==> contains_view(view_strs(v), x),
{
    lemma_view_strs_index(v);
    if seq_has_str(v, x) {
        let i = choose|i: int| 0 <= i < v.len() && #[trigger] v[i]@ == x;
        assert(view_strs(v)[i] == x);
    }
    if contains_view(view_strs(v), x) {
        let i = choose|i: int| 0 <= i < view_strs(v).len() && #[trigger] view_strs(v)[i] == x;
        assert(v[i]@ == x);
    }
}

/// `view_wt_entries` keeps length and maps each entry to its views.
proof fn lemma_view_wt_entries_index(ws: Seq<WorktreeEntry>)
    ensures
        view_wt_entries(ws).len() == ws.len(),
        forall|i: int|
            0 <= i < ws.len() ==> #[trigger] view_wt_entries(ws)[i] == (
                ws[i].path@,
                ws[i].branch@,
            ),
    decreases ws.len(),
{
    if ws.len() > 0 {
        lemma_view_wt_entries_index(ws.skip(1));
        assert(forall|i: int| 0 <= i < ws.skip(1).len() ==> #[trigger] ws.skip(1)[i] == ws[i + 1]);
    }
}

/// A worktree at directory `p` exists exactly when the view says so.
proof fn lemma_wt_path_membership(ws: Seq<WorktreeEntry>, p: Seq<char>)
    ensures
        (first_wt_with_path(ws, p) >= 0) <==> contains_wt_path(view_wt_entries(ws), p),
        first_wt_with_path(ws, p) >= 0 || first_wt_with_path(ws, p) == -1,
    decreases ws.len(),
{
    lemma_view_wt_entries_index(ws);
    if ws.len() > 0 {
        lemma_wt_path_membership(ws.skip(1), p);
        lemma_view_wt_entries_index(ws.skip(1));
        if ws[0].path@ == p {
            assert(view_wt_entries(ws)[0].0 == p);
        } else {
            if contains_wt_path(view_wt_entries(ws), p) {
                let i = choose|i: int|
                    0 <= i < view_wt_entries(ws).len() && (#[trigger] view_wt_entries(ws)[i]).0
                        == p;
                assert(view_wt_entries(ws.skip(1))[i - 1].0 == p);
            }
            if contains_wt_path(view_wt_entries(ws.skip(1)), p) {
                let j = choose|j: int|
                    0 <= j < view_wt_entries(ws.skip(1)).len() && (#[trigger] view_wt_entries(
                        ws.skip(1),
                    )[j]).0 == p;
                assert(view_wt_entries(ws)[j + 1].0 == p);
            }
        }
    }
}

/// A worktree on branch `b` exists exactly when the view says so.
proof fn lemma_wt_branch_membership(ws: Seq<WorktreeEntry>, b: Seq<char>)
    ensures
        (first_wt_with_branch(ws, b) >= 0) <==> contains_wt_branch(view_wt_entries(ws), b),
        first_wt_with_branch(ws, b) >= 0 || first_wt_with_branch(ws, b) == -1,
    decreases ws.len(),
{
    lemma_view_wt_entries_index(ws);
    if ws.len() > 0 {
        lemma_wt_branch_membership(ws.skip(1), b);
        lemma_view_wt_entries_index(ws.skip(1));
        if ws[0].branch@ == b {
            assert(view_wt_entries(ws)[0].1 == b);
        } else {
            if contains_wt_branch(view_wt_entries(ws), b) {
                let i = choose|i: int|
                    0 <= i < view_wt_entries(ws).len() && (#[trigger] view_wt_entries(ws)[i]).1
                        == b;
                assert(view_wt_entries(ws.skip(1))[i - 1].1 == b);
            }
            if contains_wt_branch(view_wt_entries(ws.skip(1)), b) {
                let j = choose|j: int|
                    0 <= j < view_wt_entries(ws.skip(1)).len() && (#[trigger] view_wt_entries(
                        ws.skip(1),
                    )[j]).1 == b;
                assert(view_wt_entries(ws)[j + 1].1 == b);
            }
        }
    }
}

/// Appending one worktree appends its view pair.
proof fn lemma_view_wt_entries_added(
    prev: Seq<WorktreeEntry>,
    cur: Seq<WorktreeEntry>,
    path: Seq<char>,
    b: Seq<char>,
)
    requires
        added_wt(prev, cur, path, b),
    ensures
        view_wt_entries(cur) == view_wt_entries(prev).push((path, b)),
{
    lemma_view_wt_entries_index(prev);
    lemma_view_wt_entries_index(cur);
    assert forall|i: int|
        0 <= i < prev.len() implies #[trigger] view_wt_entries(cur)[i] == view_wt_entries(
        prev,
    ).push((path, b))[i] by {
        assert(cur.take(prev.len() as int)[i] == cur[i]);
    }
    assert(cur[prev.len() as int] == cur.last());
    assert(view_wt_entries(cur) =~= view_wt_entries(prev).push((path, b)));
}

/// Appending one string appends its view.
proof fn lemma_view_strs_added(prev: Seq<String>, cur: Seq<String>, s: Seq<char>)
    requires
        cur.len() == prev.len() + 1,
        cur.take(prev.len() as int) == prev,
        cur.last()@ == s,
    ensures
        view_strs(cur) == view_strs(prev).push(s),
{
    lemma_view_strs_index(prev);
    lemma_view_strs_index(cur);
    assert forall|i: int|
        0 <= i < prev.len() implies #[trigger] view_strs(cur)[i] == view_strs(prev).push(s)[i] by {
        assert(cur.take(prev.len() as int)[i] == cur[i]);
    }
    assert(cur[prev.len() as int] == cur.last());
    assert(view_strs(cur) =~= view_strs(prev).push(s));
}

/// Materializes one pair per spec, strictly in order and failing fast: the
/// first failing spec aborts the remaining list, and pairs already
/// materialized for earlier specs are kept, not rolled back — cleaning
/// them up is left to the user. Success is owed exactly when every spec
/// can be materialized against the state its predecessors leave behind;
/// the resulting state is the one those steps describe, and on a failure
/// the state is that of the completed leading steps.
pub fn create_from_specs(
    context: &WorkflowContext,
    specs: &Vec<WorktreeSpec>,
    base_branch: Option<&str>,
    explicit_name: Option<&str>,
    options: &SetupOptions,
    vcs: &mut VcsState,
    mux: &mut MuxState,
) -> (r: Result<Vec<CreateResult>, WorkmuxError>)
    ensures
        ({
            let st0 = engine_view(*old(vcs), *old(mux));
            let expl = view_opt_str(explicit_name);
            let bb = view_opt_str(base_branch);
            &&& (r is Ok <==> spec_specs_ok_from(
                specs@,
                0,
                st0,
                *context,
                expl,
                bb,
                old(mux).running,
                old(vcs).in_repo,
            ))
            &&& (r is Ok ==> engine_view(*final(vcs), *final(mux)) == spec_state_after(
                specs@,
                specs@.len() as int,
                st0,
                *context,
                expl,
            ))
            &&& (r is Err ==> (exists|k: int|
                0 <= k < specs@.len() && engine_view(*final(vcs), *final(mux))
                    == #[trigger] spec_state_after(specs@, k, st0, *context, expl)
                    && !spec_step_ok(
                    spec_state_after(specs@, k, st0, *context, expl),
                    *context,
                    expl,
                    bb,
                    old(mux).running,
                    old(vcs).in_repo,
                    specs@[k],
                )))
            &&& (r matches Ok(results) ==> ({
                &&& results@.len() == specs@.len()
                &&& (forall|i: int|
                    0 <= i < specs@.len() ==> (#[trigger] results@[i]).branch_name@
                        == specs@[i].branch_name@)
                &&& (forall|i: int|
                    0 <= i < specs@.len() ==> (#[trigger] results@[i]).worktree_path@
                        == spec_worktree_path(*context, spec_step_handle(specs@[i], *context, expl)))
                &&& final(vcs).worktrees@.len() == old(vcs).worktrees@.len() + specs@.len()
                &&& final(mux).windows@.len() == old(mux).windows@.len() + specs@.len()
            }))
            &&& (r is Err ==> ({
                &&& old(vcs).worktrees@.len() <= final(vcs).worktrees@.len()
                &&& final(vcs).worktrees@.len() < old(vcs).worktrees@.len() + specs@.len()
                &&& final(mux).windows@.len() - old(mux).windows@.len()
                    == final(vcs).worktrees@.len() - old(vcs).worktrees@.len()
            }))
            &&& final(vcs).worktrees@.take(old(vcs).worktrees@.len() as int) == old(vcs).worktrees@
            &&& *final(vcs) == (VcsState {
                worktrees: final(vcs).worktrees,
                branches: final(vcs).branches,
                ..*old(vcs)
            })
            &&& *final(mux) == (MuxState {
                windows: final(mux).windows,
                focused: final(mux).focused,
                create_calls: final(mux).create_calls,
                focus_calls: final(mux).focus_calls,
                ..*old(mux)
            })
        }),
{
    let ghost st0 = engine_view(*old(vcs), *old(mux));
    let ghost expl = view_opt_str(explicit_name);
    let ghost bb = view_opt_str(base_branch);
    let ghost running0 = old(mux).running;
    let ghost inrepo0 = old(vcs).in_repo;
    let ghost base_wt = old(vcs).worktrees@;
    let n: usize = specs.len();
    let mut results: Vec<CreateResult> = Vec::new();
    let mut i: usize = 0;
    proof {
        assert(vcs.worktrees@.take(base_wt.len() as int) =~= base_wt);
        assert(spec_state_after(specs@, 0, st0, *context, expl) == st0);
    }
    while i < n
        invariant
            n == specs@.len(),
            st0 == engine_view(*old(vcs), *old(mux)),
            expl == view_opt_str(explicit_name),
            bb == view_opt_str(base_branch),
            running0 == old(mux).running,
            inrepo0 == old(vcs).in_repo,
            base_wt == old(vcs).worktrees@,
            0 <= i <= n,
            results@.len() == i,
            vcs.worktrees@.len() == base_wt.len() + i,
            vcs.worktrees@.take(base_wt.len() as int) == base_wt,
            mux.windows@.len() == old(mux).windows@.len() + i,
            engine_view(*vcs, *mux) == spec_state_after(specs@, i as int, st0, *context, expl),
            spec_specs_ok_from(specs@, 0, st0, *context, expl, bb, running0, inrepo0)
                <==> spec_specs_ok_from(
                specs@,
                i as int,
                engine_view(*vcs, *mux),
                *context,
                expl,
                bb,
                running0,
                inrepo0,
            ),
            *vcs == (VcsState { worktrees: vcs.worktrees, branches: vcs.branches, ..*old(vcs) }),
            *mux == (MuxState {
                windows: mux.windows,
                focused: mux.focused,
                create_calls: mux.create_calls,
                focus_calls: mux.focus_calls,
                ..*old(mux)
            }),
            forall|j: int|
                0 <= j < i ==> (#[trigger] results@[j]).branch_name@ == specs@[j].branch_name@,
            forall|j: int|
                0 <= j < i ==> (#[trigger] results@[j]).worktree_path@ == spec_worktree_path(
                    *context,
                    spec_step_handle(specs@[j], *context, expl),
                ),
        decreases n - i,
    {
        let ghost st_i = engine_view(*vcs, *mux);
        let ghost sp_i = specs@[i as int];
        let ghost h_i = spec_step_handle(sp_i, *context, expl);
        proof {
            lemma_view_strs_membership(mux.windows@, context.prefix@ + h_i);
            lemma_view_strs_membership(vcs.branches@, sp_i.branch_name@);
            lemma_wt_path_membership(vcs.worktrees@, spec_worktree_path(*context, h_i));
            lemma_wt_branch_membership(vcs.worktrees@, sp_i.branch_name@);
            if bb is Some {
                lemma_view_strs_membership(vcs.branches@, bb->0);
            }
        }
        let handle = match derive_handle(
            specs[i].branch_name.as_str(),
            explicit_name,
            &context.config,
        ) {
            Ok(h) => h,
            Err(e) => {
                proof {
                    assert(h_i.len() == 0);
                    assert(!spec_step_ok(st_i, *context, expl, bb, running0, inrepo0, sp_i));
                    assert(!spec_specs_ok_from(
                        specs@,
                        i as int,
                        st_i,
                        *context,
                        expl,
                        bb,
                        running0,
                        inrepo0,
                    ));
                    assert(engine_view(*vcs, *mux) == spec_state_after(
                        specs@,
                        i as int,
                        st0,
                        *context,
                        expl,
                    ));
                }
                return Err(e);
            },
        };
        let ghost pre_wt = vcs.worktrees@;
        let ghost pre_b = vcs.branches@;
        let ghost pre_win = mux.windows@;
        let result = match create(
            context,
            specs[i].branch_name.as_str(),
            &handle.as_str(),
            base_branch,
            options,
            vcs,
            mux,
        ) {
            Ok(res) => res,
            Err(e) => {
                proof {
                    assert(handle@ == h_i);
                    if spec_step_ok(st_i, *context, expl, bb, running0, inrepo0, sp_i) {
                        assert(mux.running);
                        assert(!seq_has_str(mux.windows@, context.prefix@ + handle@));
                        assert(spec_can_create_worktree(
                            *vcs,
                            spec_worktree_path(*context, handle@),
                            sp_i.branch_name@,
                            !seq_has_str(vcs.branches@, sp_i.branch_name@),
                            view_opt_str(base_branch),
                        ));
                        assert(false);
                    }
                    assert(!spec_step_ok(st_i, *context, expl, bb, running0, inrepo0, sp_i));
                    assert(!spec_specs_ok_from(
                        specs@,
                        i as int,
                        st_i,
                        *context,
                        expl,
                        bb,
                        running0,
                        inrepo0,
                    ));
                    assert(engine_view(*vcs, *mux) == spec_state_after(
                        specs@,
                        i as int,
                        st0,
                        *context,
                        expl,
                    ));
                }
                return Err(e);
            },
        };
        proof {
            assert(handle@ == h_i);
            assert(spec_step_ok(st_i, *context, expl, bb, running0, inrepo0, sp_i));
            lemma_view_wt_entries_added(
                pre_wt,
                vcs.worktrees@,
                spec_worktree_path(*context, h_i),
                sp_i.branch_name@,
            );
            if !seq_has_str(pre_b, sp_i.branch_name@) {
                lemma_view_strs_added(pre_b, vcs.branches@, sp_i.branch_name@);
            }
            lemma_view_strs_added(pre_win, mux.windows@, context.prefix@ + h_i);
            assert(engine_view(*vcs, *mux) =~= spec_step_next(st_i, *context, expl, sp_i));
            assert(spec_state_after(specs@, i + 1, st0, *context, expl) == spec_step_next(
                spec_state_after(specs@, i as int, st0, *context, expl),
                *context,
                expl,
                sp_i,
            ));
            assert(spec_specs_ok_from(specs@, i as int, st_i, *context, expl, bb, running0, inrepo0)
                == (spec_step_ok(st_i, *context, expl, bb, running0, inrepo0, sp_i)
                && spec_specs_ok_from(
                specs@,
                i + 1,
                spec_step_next(st_i, *context, expl, sp_i),
                *context,
                expl,
                bb,
                running0,
                inrepo0,
            )));
            assert(forall|j: int|
                0 <= j < base_wt.len() ==> vcs.worktrees@.take(pre_wt.len() as int)[j]
                    == #[trigger] vcs.worktrees@[j]);
            assert(vcs.worktrees@.take(base_wt.len() as int) =~= base_wt);
        }
        results.push(result);
        i = i + 1;
    }
    proof {
        assert(spec_specs_ok_from(
            specs@,
            n as int,
            engine_view(*vcs, *mux),
            *context,
            expl,
            bb,
            running0,
            inrepo0,
        ));
    }
    Ok(results)
}

} // verus!
