//! The version-control model: queries, parsing, and teardown mutations.

use workmux::errors::WorkmuxError;
use workmux::git::{
    branch_exists, branch_has_upstream, create_worktree, delete_branch, find_worktree,
    get_default_branch, get_merge_base, get_unmerged_branches, get_worktree_path,
    has_uncommitted_changes, list_worktrees, parse_remote_branch_spec,
    parse_worktree_list_porcelain, prune_worktrees, remote_exists, switch_branch_in_worktree,
    unset_branch_upstream, worktree_exists, VcsState, WorktreeEntry,
};

fn repo() -> VcsState {
    let mut vcs = VcsState::empty();
    vcs.in_repo = true;
    vcs.repo_root = "/repo".to_string();
    vcs.worktrees.push(WorktreeEntry { path: "/repo".to_string(), branch: "main".to_string() });
    vcs.branches.push("main".to_string());
    vcs
}

#[test]
fn parse_remote_branch_spec_splits_at_first_slash() {
    let spec = parse_remote_branch_spec("origin/feature/foo").unwrap();
    assert_eq!(spec.remote, "origin");
    assert_eq!(spec.branch, "feature/foo");
}

#[test]
fn parse_remote_branch_spec_rejects_missing_parts() {
    assert!(matches!(
        parse_remote_branch_spec("noslash"),
        Err(WorkmuxError::InvalidRemoteSpec(_))
    ));
    assert!(parse_remote_branch_spec("/branch").is_err());
    assert!(parse_remote_branch_spec("origin/").is_err());
}

#[test]
fn porcelain_listing_parses_blocks() {
    let listing = "worktree /repo\nHEAD abcd\nbranch refs/heads/main\n\nworktree /repo-worktrees/feat\nHEAD ef01\nbranch refs/heads/feature/x\n\nworktree /elsewhere\nHEAD 9999\ndetached\n";
    let entries = parse_worktree_list_porcelain(listing);
    assert_eq!(entries.len(), 3);
    assert_eq!(entries[0].path, "/repo");
    assert_eq!(entries[0].branch, "main");
    assert_eq!(entries[1].path, "/repo-worktrees/feat");
    assert_eq!(entries[1].branch, "feature/x");
    assert_eq!(entries[2].path, "/elsewhere");
    assert_eq!(entries[2].branch, "(detached)");
}

#[test]
fn porcelain_listing_ignores_incomplete_blocks() {
    let entries = parse_worktree_list_porcelain("HEAD abcd\nbare\n\nworktree /only-path\n\n");
    assert_eq!(entries.len(), 0);
}

#[test]
fn default_branch_prefers_remote_head() {
    let mut vcs = repo();
    vcs.origin_head = Some("trunk".to_string());
    assert_eq!(get_default_branch(&vcs).unwrap(), "trunk");
}

#[test]
fn default_branch_falls_back_to_main_then_master() {
    let vcs = repo();
    assert_eq!(get_default_branch(&vcs).unwrap(), "main");
    let mut vcs2 = VcsState::empty();
    vcs2.in_repo = true;
    vcs2.branches.push("master".to_string());
    assert_eq!(get_default_branch(&vcs2).unwrap(), "master");
    let vcs3 = VcsState::empty();
    assert!(matches!(
        get_default_branch(&vcs3),
        Err(WorkmuxError::ConfigurationRequired)
    ));
}

#[test]
fn worktree_lookup_by_branch() {
    let mut vcs = repo();
    vcs.worktrees.push(WorktreeEntry {
        path: "/repo-worktrees/feat".to_string(),
        branch: "feature/x".to_string(),
    });
    assert!(worktree_exists(&vcs, "feature/x"));
    assert_eq!(get_worktree_path(&vcs, "feature/x").unwrap(), "/repo-worktrees/feat");
    assert!(!worktree_exists(&vcs, "missing"));
    let err = get_worktree_path(&vcs, "missing").unwrap_err();
    assert_eq!(err.0, "missing");
    assert_eq!(list_worktrees(&vcs).len(), 2);
}

#[test]
fn find_worktree_prefers_handle_over_branch() {
    let mut vcs = repo();
    vcs.worktrees.push(WorktreeEntry {
        path: "/repo-worktrees/feat".to_string(),
        branch: "feature/x".to_string(),
    });
    let (path, branch) = find_worktree(&vcs, "feat").unwrap();
    assert_eq!(path, "/repo-worktrees/feat");
    assert_eq!(branch, "feature/x");
    let (path2, _) = find_worktree(&vcs, "feature/x").unwrap();
    assert_eq!(path2, "/repo-worktrees/feat");
}

#[test]
fn create_worktree_registers_pair() {
    let mut vcs = repo();
    create_worktree(&mut vcs, "/repo-worktrees/new", "feature/new", true, Some("main"), false)
        .unwrap();
    assert!(branch_exists(&vcs, "feature/new"));
    assert!(worktree_exists(&vcs, "feature/new"));
    assert!(!branch_has_upstream(&vcs, "feature/new"));
}

#[test]
fn create_worktree_refuses_duplicates() {
    let mut vcs = repo();
    let r = create_worktree(&mut vcs, "/elsewhere", "main", true, None, false);
    assert!(matches!(r, Err(WorkmuxError::AlreadyExists(_))));
    let r2 = create_worktree(&mut vcs, "/elsewhere", "ghost", false, None, false);
    assert!(matches!(r2, Err(WorkmuxError::NotFound(_))));
}

#[test]
fn create_worktree_tracks_upstream_when_asked() {
    let mut vcs = repo();
    vcs.branches.push("origin/feat".to_string());
    create_worktree(&mut vcs, "/wt", "feat", true, Some("origin/feat"), true).unwrap();
    assert!(branch_has_upstream(&vcs, "feat"));
    unset_branch_upstream(&mut vcs, "feat").unwrap();
    assert!(!branch_has_upstream(&vcs, "feat"));
}

#[test]
fn delete_branch_refuses_unmerged_without_force() {
    let mut vcs = repo();
    vcs.branches.push("wip".to_string());
    vcs.unmerged.push("wip".to_string());
    let r = delete_branch(&mut vcs, "wip", false);
    assert!(matches!(r, Err(WorkmuxError::CommandFailed(_))));
    assert!(branch_exists(&vcs, "wip"));
    assert_eq!(vcs.branch_delete_calls, 1);
    delete_branch(&mut vcs, "wip", true).unwrap();
    assert!(!branch_exists(&vcs, "wip"));
    assert_eq!(vcs.branch_delete_calls, 2);
}

#[test]
fn delete_branch_refuses_checked_out_branch() {
    let mut vcs = repo();
    let r = delete_branch(&mut vcs, "main", true);
    assert!(matches!(r, Err(WorkmuxError::CommandFailed(_))));
    assert!(branch_exists(&vcs, "main"));
}

#[test]
fn merge_base_prefers_upstream_then_remote() {
    let mut vcs = repo();
    assert_eq!(get_merge_base(&vcs, "main"), "main");
    vcs.branches.push("origin/main".to_string());
    assert_eq!(get_merge_base(&vcs, "main"), "origin/main");
    vcs.upstreams.push(("main".to_string(), "upstream/main".to_string()));
    assert_eq!(get_merge_base(&vcs, "main"), "upstream/main");
}

#[test]
fn unmerged_branches_empty_for_missing_base() {
    let mut vcs = repo();
    vcs.unmerged.push("wip".to_string());
    assert_eq!(get_unmerged_branches(&vcs, "main"), vec!["wip".to_string()]);
    assert!(get_unmerged_branches(&vcs, "nope").is_empty());
}

#[test]
fn prune_drops_missing_worktrees() {
    let mut vcs = repo();
    vcs.worktrees.push(WorktreeEntry { path: "/gone".to_string(), branch: "b".to_string() });
    vcs.missing_paths.push("/gone".to_string());
    prune_worktrees(&mut vcs).unwrap();
    assert_eq!(list_worktrees(&vcs).len(), 1);
}

#[test]
fn switch_branch_updates_entry() {
    let mut vcs = repo();
    vcs.worktrees.push(WorktreeEntry { path: "/wt".to_string(), branch: "a".to_string() });
    vcs.branches.push("a".to_string());
    vcs.branches.push("b".to_string());
    switch_branch_in_worktree(&mut vcs, "/wt", "b").unwrap();
    assert_eq!(get_worktree_path(&vcs, "b").unwrap(), "/wt");
    let r = switch_branch_in_worktree(&mut vcs, "/wt", "main");
    assert!(matches!(r, Err(WorkmuxError::AlreadyExists(_))));
}

#[test]
fn remote_queries() {
    let mut vcs = repo();
    vcs.remotes.push("origin".to_string());
    assert!(remote_exists(&vcs, "origin"));
    assert!(!remote_exists(&vcs, "fork"));
    assert!(!has_uncommitted_changes(&vcs, "/repo"));
}
