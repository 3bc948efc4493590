//! Lifecycle operations over the modelled collaborators.

use workmux::config::Config;
use workmux::errors::WorkmuxError;
use workmux::git::{VcsState, WorktreeEntry};
use workmux::mux::MuxState;
use workmux::workflow::context::WorkflowContext;
use workmux::workflow::create::create;
use workmux::workflow::list::list;
use workmux::workflow::merge::merge;
use workmux::workflow::open::open;
use workmux::workflow::remove::{remove, validate_removal_safety, RemovalDecision};
use workmux::workflow::rescue::create_with_changes;
use workmux::workflow::types::{RescueOutcome, SetupOptions};

fn repo() -> VcsState {
    let mut vcs = VcsState::empty();
    vcs.in_repo = true;
    vcs.repo_root = "/repo".to_string();
    vcs.worktrees.push(WorktreeEntry { path: "/repo".to_string(), branch: "main".to_string() });
    vcs.branches.push("main".to_string());
    vcs
}

fn with_feature(vcs: &mut VcsState) {
    vcs.worktrees.push(WorktreeEntry {
        path: "/repo-worktrees/feat".to_string(),
        branch: "feature/x".to_string(),
    });
    vcs.branches.push("feature/x".to_string());
}

fn mux_running() -> MuxState {
    let mut mux = MuxState::empty();
    mux.running = true;
    mux
}

fn context(vcs: &VcsState) -> WorkflowContext {
    WorkflowContext::new(Config::default(), vcs).unwrap()
}

fn options() -> SetupOptions {
    SetupOptions::new(true, true, true)
}

#[test]
fn context_fails_outside_repository() {
    let vcs = VcsState::empty();
    let r = WorkflowContext::new(Config::default(), &vcs);
    assert!(matches!(r, Err(WorkmuxError::NotARepository)));
}

#[test]
fn context_resolves_roots_and_main_branch() {
    let vcs = repo();
    let c = context(&vcs);
    assert_eq!(c.repo_root, "/repo");
    assert_eq!(c.main_worktree_root, "/repo");
    assert_eq!(c.main_branch, "main");
    assert_eq!(c.prefix, "");
}

#[test]
fn create_materializes_pair_end_to_end() {
    // Branch "feature/login", full naming, no prefix: the worktree path
    // ends in the slug "feature-login", the window carries the handle, the
    // hooks run, and the result names the branch.
    let mut vcs = repo();
    let mut mux = mux_running();
    let mut config = Config::default();
    config.post_create_hooks.push("make setup".to_string());
    let ctx = WorkflowContext::new(config.clone(), &vcs).unwrap();
    let handle =
        workmux::naming::derive_handle("feature/login", None, &config).unwrap();
    assert_eq!(handle, "feature-login");
    let result =
        create(&ctx, "feature/login", &handle, None, &options(), &mut vcs, &mut mux).unwrap();
    assert_eq!(result.branch_name, "feature/login");
    assert!(result.worktree_path.ends_with("feature-login"));
    assert_eq!(result.post_create_hooks_run, 1);
    let (path, branch) = workmux::git::find_worktree(&vcs, "feature-login").unwrap();
    assert_eq!(path, result.worktree_path);
    assert_eq!(branch, "feature/login");
    assert_eq!(mux.windows, vec!["feature-login".to_string()]);
    assert_eq!(mux.focused.as_deref(), Some("feature-login"));
}

#[test]
fn create_refuses_existing_window() {
    let mut vcs = repo();
    let mut mux = mux_running();
    mux.windows.push("feat".to_string());
    let ctx = context(&vcs);
    let r = create(&ctx, "feature/x", "feat", None, &options(), &mut vcs, &mut mux);
    assert!(matches!(r, Err(WorkmuxError::AlreadyExists(_))));
    assert_eq!(vcs.worktrees.len(), 1);
}

#[test]
fn create_refuses_unknown_base() {
    let mut vcs = repo();
    let mut mux = mux_running();
    let ctx = context(&vcs);
    let r = create(&ctx, "feature/x", "feat", Some("ghost"), &options(), &mut vcs, &mut mux);
    assert!(matches!(r, Err(WorkmuxError::NotFound(_))));
}

#[test]
fn multi_create_is_sequential_and_fail_fast() {
    let mut vcs = repo();
    let mut mux = mux_running();
    let ctx = context(&vcs);
    let agents = vec!["a".to_string(), "b".to_string(), "c".to_string()];
    let specs =
        workmux::template::generate_worktree_specs("job", &agents, None, None, None).unwrap();
    // A window that collides with the second spec's handle: the first pair
    // is materialized and kept; the second aborts the rest.
    mux.windows.push("job-b".to_string());
    let r = workmux::workflow::create::create_from_specs(
        &ctx,
        &specs,
        None,
        None,
        &options(),
        &mut vcs,
        &mut mux,
    );
    assert!(matches!(r, Err(WorkmuxError::AlreadyExists(_))));
    assert_eq!(vcs.worktrees.len(), 2); // main plus the first spec, not rolled back
    assert!(vcs.branches.contains(&"job-a".to_string()));
    assert!(!vcs.branches.contains(&"job-c".to_string()));
    // Without the collision all three are created in order.
    let mut vcs2 = repo();
    let mut mux2 = mux_running();
    let results = workmux::workflow::create::create_from_specs(
        &ctx,
        &specs,
        None,
        None,
        &options(),
        &mut vcs2,
        &mut mux2,
    )
    .unwrap();
    assert_eq!(results.len(), 3);
    assert_eq!(results[0].branch_name, "job-a");
    assert_eq!(results[2].branch_name, "job-c");
    assert_eq!(mux2.windows, vec!["job-a".to_string(), "job-b".to_string(), "job-c".to_string()]);
}

#[test]
fn multi_create_windows_carry_the_configured_prefix() {
    let vcs0 = repo();
    let mut vcs = vcs0.clone();
    let mut mux = mux_running();
    let mut config = Config::default();
    config.window_prefix = Some("dev-".to_string());
    let ctx = WorkflowContext::new(config, &vcs0).unwrap();
    let agents = vec!["a".to_string(), "b".to_string()];
    let specs =
        workmux::template::generate_worktree_specs("job", &agents, None, None, None).unwrap();
    let results = workmux::workflow::create::create_from_specs(
        &ctx,
        &specs,
        None,
        None,
        &options(),
        &mut vcs,
        &mut mux,
    )
    .unwrap();
    assert_eq!(mux.windows, vec!["dev-job-a".to_string(), "dev-job-b".to_string()]);
    assert!(results[0].worktree_path.ends_with("job-a"));
    assert!(results[1].worktree_path.ends_with("job-b"));
}

#[test]
fn open_binds_window_to_existing_worktree() {
    let mut vcs = repo();
    with_feature(&mut vcs);
    let mut mux = mux_running();
    let ctx = context(&vcs);
    let result = open("feature/x", &ctx, &options(), &vcs, &mut mux).unwrap();
    assert_eq!(result.branch_name, "feature/x");
    assert_eq!(result.worktree_path, "/repo-worktrees/feat");
    assert_eq!(mux.windows, vec!["feat".to_string()]);
}

#[test]
fn open_refuses_existing_window() {
    let mut vcs = repo();
    with_feature(&mut vcs);
    let mut mux = mux_running();
    mux.windows.push("feat".to_string());
    let ctx = context(&vcs);
    let r = open("feature/x", &ctx, &options(), &vcs, &mut mux);
    assert!(matches!(r, Err(WorkmuxError::AlreadyExists(_))));
}

#[test]
fn open_refuses_unknown_worktree() {
    let vcs = repo();
    let mut mux = mux_running();
    let ctx = context(&vcs);
    let r = open("ghost", &ctx, &options(), &vcs, &mut mux);
    assert!(matches!(r, Err(WorkmuxError::NotFound(_))));
}

#[test]
fn remove_protects_main_worktree_even_with_force() {
    let mut vcs = repo();
    let mut mux = mux_running();
    let ctx = context(&vcs);
    let r = remove("main", true, false, &ctx, &mut vcs, &mut mux);
    assert!(matches!(r, Err(WorkmuxError::ProtectedResource(_))));
    assert_eq!(vcs.worktrees.len(), 1);
    assert_eq!(mux.close_calls, 0);
}

#[test]
fn remove_protects_main_branch_by_name() {
    let mut vcs = repo();
    // A second worktree that somehow carries the main branch name.
    vcs.worktrees.push(WorktreeEntry {
        path: "/repo-worktrees/other".to_string(),
        branch: "main".to_string(),
    });
    let mut mux = mux_running();
    let ctx = context(&vcs);
    let r = remove("other", true, false, &ctx, &mut vcs, &mut mux);
    assert!(matches!(r, Err(WorkmuxError::ProtectedResource(_))));
}

#[test]
fn remove_dirty_worktree_blocks_then_force_succeeds() {
    let mut vcs = repo();
    with_feature(&mut vcs);
    vcs.dirty_paths.push("/repo-worktrees/feat".to_string());
    let mut mux = mux_running();
    mux.windows.push("feat".to_string());
    let ctx = context(&vcs);
    let r = remove("feat", false, false, &ctx, &mut vcs, &mut mux);
    assert!(matches!(r, Err(WorkmuxError::DirtyWorktree(_))));
    assert_eq!(vcs.worktrees.len(), 2);
    let ok = remove("feat", true, false, &ctx, &mut vcs, &mut mux).unwrap();
    assert_eq!(ok.branch_removed, "feature/x");
    assert_eq!(vcs.worktrees.len(), 1);
    assert!(!vcs.branches.contains(&"feature/x".to_string()));
    assert!(mux.windows.is_empty());
}

#[test]
fn remove_failing_deletion_never_touches_window() {
    // Teardown ordering: when the version-control deletion step fails, the
    // window-close step is never invoked.
    let mut vcs = repo();
    with_feature(&mut vcs);
    vcs.fail_branch_delete = true;
    let mut mux = mux_running();
    mux.windows.push("feat".to_string());
    let ctx = context(&vcs);
    let r = remove("feat", false, false, &ctx, &mut vcs, &mut mux);
    assert!(r.is_err());
    assert_eq!(mux.close_calls, 0);
    assert_eq!(mux.windows, vec!["feat".to_string()]);
}

#[test]
fn remove_keep_branch_leaves_branch() {
    let mut vcs = repo();
    with_feature(&mut vcs);
    let mut mux = mux_running();
    mux.windows.push("feat".to_string());
    let ctx = context(&vcs);
    remove("feat", false, true, &ctx, &mut vcs, &mut mux).unwrap();
    assert!(vcs.branches.contains(&"feature/x".to_string()));
    assert_eq!(vcs.branch_delete_calls, 0);
    assert_eq!(vcs.worktree_remove_calls, 1);
}

#[test]
fn remove_moves_focus_away_before_closing() {
    let mut vcs = repo();
    with_feature(&mut vcs);
    let mut mux = mux_running();
    mux.windows.push("feat".to_string());
    mux.windows.push("main".to_string());
    mux.focused = Some("feat".to_string());
    let ctx = context(&vcs);
    remove("feat", false, false, &ctx, &mut vcs, &mut mux).unwrap();
    assert_eq!(mux.focused.as_deref(), Some("main"));
    assert_eq!(mux.windows, vec!["main".to_string()]);
}

#[test]
fn validate_removal_safety_decisions() {
    let mut vcs = repo();
    with_feature(&mut vcs);
    let d = validate_removal_safety("feat", "/repo-worktrees/feat", "feature/x", true, false, &vcs)
        .unwrap();
    assert!(matches!(d, RemovalDecision::Proceed(true)));
    let d2 =
        validate_removal_safety("feat", "/repo-worktrees/feat", "feature/x", false, false, &vcs)
            .unwrap();
    assert!(matches!(d2, RemovalDecision::Proceed(false)));
    vcs.unmerged.push("feature/x".to_string());
    let d3 =
        validate_removal_safety("feat", "/repo-worktrees/feat", "feature/x", false, false, &vcs)
            .unwrap();
    assert!(matches!(d3, RemovalDecision::ConfirmUnmerged));
    vcs.dirty_paths.push("/repo-worktrees/feat".to_string());
    let d4 = validate_removal_safety("feat", "/repo-worktrees/feat", "feature/x", false, false, &vcs);
    assert!(matches!(d4, Err(WorkmuxError::DirtyWorktree(_))));
}

#[test]
fn merge_merges_and_tears_down() {
    let mut vcs = repo();
    with_feature(&mut vcs);
    let mut mux = mux_running();
    mux.windows.push("feat".to_string());
    let ctx = context(&vcs);
    let result = merge("feature/x", false, false, false, false, &ctx, &mut vcs, &mut mux).unwrap();
    assert_eq!(result.branch_merged, "feature/x");
    assert_eq!(result.main_branch, "main");
    assert!(!result.had_staged_changes);
    assert_eq!(vcs.worktrees.len(), 1);
    assert!(!vcs.branches.contains(&"feature/x".to_string()));
    assert!(mux.windows.is_empty());
}

#[test]
fn merge_conflict_is_fatal_without_teardown() {
    let mut vcs = repo();
    with_feature(&mut vcs);
    vcs.fail_merge = true;
    let mut mux = mux_running();
    mux.windows.push("feat".to_string());
    let ctx = context(&vcs);
    let r = merge("feature/x", false, false, false, false, &ctx, &mut vcs, &mut mux);
    assert!(matches!(r, Err(WorkmuxError::CommandFailed(_))));
    assert_eq!(vcs.worktrees.len(), 2);
    assert!(vcs.branches.contains(&"feature/x".to_string()));
    assert_eq!(mux.close_calls, 0);
}

#[test]
fn merge_dirty_worktree_blocks_unless_ignored() {
    let mut vcs = repo();
    with_feature(&mut vcs);
    vcs.dirty_paths.push("/repo-worktrees/feat".to_string());
    let mut mux = mux_running();
    mux.windows.push("feat".to_string());
    let ctx = context(&vcs);
    let r = merge("feature/x", false, false, false, false, &ctx, &mut vcs, &mut mux);
    assert!(matches!(r, Err(WorkmuxError::DirtyWorktree(_))));
    let ok = merge("feature/x", true, false, false, false, &ctx, &mut vcs, &mut mux);
    assert!(ok.is_ok());
}

#[test]
fn merge_commits_staged_changes_first() {
    let mut vcs = repo();
    with_feature(&mut vcs);
    vcs.staged_paths.push("/repo-worktrees/feat".to_string());
    vcs.dirty_paths.push("/repo-worktrees/feat".to_string());
    let mut mux = mux_running();
    mux.windows.push("feat".to_string());
    let ctx = context(&vcs);
    let result = merge("feature/x", false, false, false, false, &ctx, &mut vcs, &mut mux).unwrap();
    assert!(result.had_staged_changes);
}

#[test]
fn merge_squash_leaves_changes_staged_in_main() {
    let mut vcs = repo();
    with_feature(&mut vcs);
    let mut mux = mux_running();
    mux.windows.push("feat".to_string());
    let ctx = context(&vcs);
    merge("feature/x", false, false, false, true, &ctx, &mut vcs, &mut mux).unwrap();
    assert!(vcs.staged_paths.contains(&"/repo".to_string()));
    assert!(vcs.dirty_paths.contains(&"/repo".to_string()));
}

#[test]
fn merge_protects_main_branch() {
    let mut vcs = repo();
    let mut mux = mux_running();
    let ctx = context(&vcs);
    let r = merge("main", false, false, false, false, &ctx, &mut vcs, &mut mux);
    assert!(matches!(r, Err(WorkmuxError::ProtectedResource(_))));
}

#[test]
fn rescue_clean_worktree_is_noop() {
    let mut vcs = repo();
    let mut mux = mux_running();
    let ctx = context(&vcs);
    let before = vcs.worktrees.len();
    let r = create_with_changes(
        "rescue/x",
        "rescue-x",
        "/repo",
        false,
        &options(),
        &ctx,
        &mut vcs,
        &mut mux,
    )
    .unwrap();
    assert!(matches!(r, RescueOutcome::NothingToMove));
    assert_eq!(vcs.worktrees.len(), before);
    assert!(mux.windows.is_empty());
}

#[test]
fn rescue_moves_changes_to_new_pair() {
    let mut vcs = repo();
    vcs.dirty_paths.push("/repo".to_string());
    vcs.staged_paths.push("/repo".to_string());
    let mut mux = mux_running();
    let ctx = context(&vcs);
    let r = create_with_changes(
        "rescue/x",
        "rescue-x",
        "/repo",
        false,
        &options(),
        &ctx,
        &mut vcs,
        &mut mux,
    )
    .unwrap();
    match r {
        RescueOutcome::Moved { branch_name, worktree_path } => {
            assert_eq!(branch_name, "rescue/x");
            assert!(worktree_path.ends_with("rescue-x"));
            assert!(!vcs.dirty_paths.contains(&"/repo".to_string()));
            assert!(!vcs.staged_paths.contains(&"/repo".to_string()));
            assert!(vcs.dirty_paths.contains(&worktree_path));
        }
        RescueOutcome::NothingToMove => panic!("expected a move"),
    }
}

#[test]
fn list_reports_windows_and_unmerged() {
    let mut vcs = repo();
    with_feature(&mut vcs);
    vcs.unmerged.push("feature/x".to_string());
    let mut mux = mux_running();
    mux.windows.push("feat".to_string());
    let infos = list(&Config::default(), &vcs, &mux).unwrap();
    assert_eq!(infos.len(), 2);
    assert_eq!(infos[0].branch, "main");
    assert!(!infos[0].has_unmerged);
    assert_eq!(infos[1].branch, "feature/x");
    assert!(infos[1].has_tmux);
    assert!(infos[1].has_unmerged);
}

#[test]
fn list_fails_outside_repository() {
    let vcs = VcsState::empty();
    let mux = MuxState::empty();
    let r = list(&Config::default(), &vcs, &mux);
    assert!(matches!(r, Err(WorkmuxError::NotARepository)));
}
