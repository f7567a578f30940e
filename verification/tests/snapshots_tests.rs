//! The Git snapshot provider's decisions.

use agentfs_core::snapshots::{
    check_destination_path, join_path, select_provider, BtrfsProvider, GitProvider, ProviderCapabilities,
    SnapshotError, SnapshotProviderKind, WorkingCopyMode,
};

#[test]
fn test_git_provider_creation() {
    let provider = GitProvider::new();
    assert_eq!(provider.kind(), SnapshotProviderKind::Git);
}

#[test]
fn test_git_inplace_workspace_creation() {
    let provider = GitProvider::new();
    let repo_path = "/tmp/test_repo";

    let ws = provider.in_place_workspace(repo_path);

    assert_eq!(ws.working_copy, WorkingCopyMode::InPlace);
    assert_eq!(ws.provider, SnapshotProviderKind::Git);
    assert!(ws.cleanup_token.starts_with("git:inplace:"));
    assert_eq!(ws.exec_path, repo_path);
}

#[test]
fn test_cleanup_invalid_token() {
    let provider = GitProvider::new();
    let result = provider.cleanup_plan("invalid:token");

    assert!(result.is_err());
    match result {
        Err(SnapshotError::Provider { message }) => assert!(message.contains("Invalid Git cleanup token")),
        other => panic!("unexpected {:?}", other),
    }
}

#[test]
fn test_cleanup_inplace_token() {
    let provider = GitProvider::new();
    let result = provider.cleanup_plan("git:inplace:/some/path");

    assert!(result.is_ok());
}

#[test]
fn git_cleanup_names_worktrees() {
    let p = GitProvider::with_config("/c/shadows".to_string(), "/c/worktrees".to_string(), false);
    assert_eq!(p.cleanup_plan("git:worktree:s1:b1").unwrap(), Some("/c/worktrees/s1_b1".to_string()));
    assert_eq!(p.cleanup_plan("git:branch:s2:ah-branch-s2:extra").unwrap(), Some("/c/worktrees/s2_ah-branch-s2".to_string()));
    assert_eq!(p.cleanup_plan("git:worktree:only").unwrap(), None);
    assert!(p.cleanup_plan("zfs:whatever").is_err());
}

#[test]
fn git_paths_and_reports() {
    let p = GitProvider::with_cache_dir(Some("/home/u/.cache".to_string()));
    assert_eq!(p.shadow_repo_dir, "/home/u/.cache/ah/git-shadows");
    assert_eq!(p.worktree_dir, "/home/u/.cache/ah/git-worktrees");
    assert!(!p.include_untracked);
    let q = GitProvider::with_cache_dir(None);
    assert_eq!(q.shadow_repo_dir, "/tmp/ah/git-shadows");
    assert_eq!(p.shadow_repo_path_for(0xbeef), "/home/u/.cache/ah/git-shadows/beef");
    assert_eq!(p.shadow_repo_path_for(0), "/home/u/.cache/ah/git-shadows/0");
    assert_eq!(p.worktree_path("s", "main"), "/home/u/.cache/ah/git-worktrees/s_main");
    assert_eq!(join_path("", "x"), "x");
    assert_eq!(join_path("/a/", "x"), "/a/x");
    assert_eq!(join_path("/a", "/abs"), "/abs");
    let none = p.capabilities(false, true, "/s");
    assert_eq!((none.score, none.notes.clone()), (0, vec!["Git command not available".to_string()]));
    let not_repo = p.capabilities(true, false, "/s");
    assert_eq!(not_repo.notes, vec!["Path is not a Git repository".to_string()]);
    let ok = p.capabilities(true, true, "/s");
    assert_eq!(ok.score, 10);
    assert!(!ok.supports_cow_overlay);
    assert_eq!(ok.notes, vec!["Git-based snapshots available".to_string(), "Shadow repo: /s".to_string()]);
    assert_eq!(GitProvider::commit_message(Some("x")), "AH Snapshot: x");
    assert_eq!(GitProvider::commit_message(None), "AH Snapshot");
    assert_eq!(p.add_args(), vec!["add".to_string(), "--all".to_string()]);
    let u = GitProvider::with_config("a".to_string(), "b".to_string(), true);
    assert_eq!(u.add_args().len(), 3);
    let w = p.worktree_workspace("/w".to_string(), "s", "br", WorkingCopyMode::Auto);
    assert_eq!(w.cleanup_token, "git:worktree:s:br");
    assert_eq!(w.working_copy, WorkingCopyMode::Auto);
    let b = p.branch_workspace("/w".to_string(), "s", "br", WorkingCopyMode::Worktree);
    assert_eq!(b.cleanup_token, "git:branch:s:br");
}

#[test]
fn git_branch_token_removes_its_worktree() {
    let p = GitProvider::with_config("/sh".to_string(), "/wt".to_string(), false);
    let path = p.worktree_path("sess", "ah-branch-sess");
    let w = p.branch_workspace(path, "sess", "ah-branch-sess", WorkingCopyMode::Worktree);
    assert_eq!(p.cleanup_plan(&w.cleanup_token).unwrap(), Some(w.exec_path.clone()));
    let inplace = p.in_place_workspace("/repo");
    assert_eq!(p.cleanup_plan(&inplace.cleanup_token).unwrap(), None);
    // A worktree workspace lives under the branch name `main` while its token
    // names `ah-worktree-<session>`: cleanup aims at the latter.
    let wt = p.worktree_workspace(p.worktree_path("sess", "main"), "sess", "ah-worktree-sess", WorkingCopyMode::Worktree);
    assert_eq!(p.cleanup_plan(&wt.cleanup_token).unwrap(), Some("/wt/sess_ah-worktree-sess".to_string()));
    assert_ne!(Some(wt.exec_path), p.cleanup_plan(&wt.cleanup_token).unwrap());
}

#[test]
fn btrfs_capabilities_report() {
    let p = BtrfsProvider::new();
    assert_eq!(p.kind(), SnapshotProviderKind::Btrfs);
    let missing = p.capabilities(false, Ok("btrfs"), Some("/vol"));
    assert_eq!((missing.score, missing.supports_cow_overlay), (0, false));
    assert_eq!(missing.notes, vec!["Btrfs command not available".to_string()]);
    let sub = p.capabilities(true, Ok("btrfs"), Some("/vol"));
    assert_eq!(sub.kind, SnapshotProviderKind::Btrfs);
    assert_eq!((sub.score, sub.supports_cow_overlay), (80, true));
    assert_eq!(sub.notes, vec!["Using Btrfs subvolume: /vol".to_string()]);
    let plain = p.capabilities(true, Ok("btrfs"), None);
    assert_eq!(plain.score, 0);
    assert_eq!(plain.notes, vec!["Path is not in a Btrfs subvolume".to_string()]);
    let ext4 = p.capabilities(true, Ok("ext4"), Some("/vol"));
    assert_eq!(ext4.score, 0);
    assert_eq!(ext4.notes, vec!["Path is on ext4 filesystem, not Btrfs".to_string()]);
    let failed = p.capabilities(true, Err("no such file"), None);
    assert!(!failed.supports_cow_overlay);
    assert_eq!(failed.notes, vec!["Failed to detect filesystem: no such file".to_string()]);
}

#[test]
fn btrfs_workspaces_and_modes() {
    let p = BtrfsProvider::new();
    let ip = p.in_place_workspace("/repo");
    assert_eq!(ip.working_copy, WorkingCopyMode::InPlace);
    assert_eq!(ip.cleanup_token, "btrfs:inplace:/repo");
    let ov = p.overlay_workspace("/repo/.snap");
    assert_eq!(ov.working_copy, WorkingCopyMode::CowOverlay);
    assert_eq!(ov.exec_path, "/repo/.snap");
    assert_eq!(ov.cleanup_token, "btrfs:cow:/repo/.snap");
    let br = p.branch_workspace("/repo/.br");
    assert_eq!(br.provider, SnapshotProviderKind::Btrfs);
    assert_eq!(br.cleanup_token, "btrfs:branch:/repo/.br");
    assert_eq!(
        BtrfsProvider::workspace_mode_error(WorkingCopyMode::Worktree),
        Some("Btrfs worktree mode not implemented - use CowOverlay".to_string())
    );
    assert!(BtrfsProvider::workspace_mode_error(WorkingCopyMode::Auto).is_some());
    assert_eq!(BtrfsProvider::workspace_mode_error(WorkingCopyMode::CowOverlay), None);
    assert_eq!(BtrfsProvider::workspace_mode_error(WorkingCopyMode::InPlace), None);
    assert_eq!(BtrfsProvider::branch_mode_error(WorkingCopyMode::CowOverlay), None);
    assert_eq!(
        BtrfsProvider::branch_mode_error(WorkingCopyMode::InPlace),
        Some("Btrfs branching only supports CowOverlay mode".to_string())
    );
    assert_eq!(BtrfsProvider::snapshot_id("42"), "btrfs_snapshot_42");
}

#[test]
fn btrfs_cleanup_tokens() {
    let p = BtrfsProvider::new();
    assert_eq!(p.cleanup_plan("btrfs:inplace:/repo").unwrap(), None);
    assert_eq!(p.cleanup_plan("btrfs:cow:/a/b").unwrap(), Some("/a/b".to_string()));
    assert_eq!(p.cleanup_plan("btrfs:branch:/c").unwrap(), Some("/c".to_string()));
    match p.cleanup_plan("git:inplace:/x") {
        Err(SnapshotError::Provider { message }) => {
            assert_eq!(message, "Invalid Btrfs cleanup token: git:inplace:/x")
        }
        other => panic!("unexpected {:?}", other),
    }
    let ov = p.overlay_workspace("/s/snap");
    assert_eq!(p.cleanup_plan(&ov.cleanup_token).unwrap(), Some(ov.exec_path.clone()));
    let br = p.branch_workspace("/s/branch");
    assert_eq!(p.cleanup_plan(&br.cleanup_token).unwrap(), Some(br.exec_path.clone()));
}

#[test]
fn test_git_capabilities_on_non_git_path() {
    let provider = GitProvider::new();
    // What a path outside any repository reports, with and without `git`.
    let capabilities = provider.capabilities(true, false, "");
    assert_eq!(capabilities.kind, SnapshotProviderKind::Git);
    assert_eq!(capabilities.score, 0);
    assert!(!capabilities.supports_cow_overlay);
    let without_git = provider.capabilities(false, false, "");
    assert_eq!(without_git.kind, SnapshotProviderKind::Git);
    assert_eq!(without_git.score, 0);
    assert!(!without_git.supports_cow_overlay);
}

#[test]
fn test_shadow_repo_path_deterministic() {
    let provider = GitProvider::new();
    let path_hash: u64 = 0x1234_5678_9abc_def0;

    let path1 = provider.shadow_repo_path_for(path_hash);
    let path2 = provider.shadow_repo_path_for(path_hash);

    assert_eq!(path1, path2);
}

#[test]
fn test_path_validation() {
    // Valid paths should pass validation
    assert!(check_destination_path("/tmp/test").is_ok());
    assert!(check_destination_path("./test").is_ok());

    // Invalid paths should be rejected
    assert!(check_destination_path("/").is_err());
    assert!(check_destination_path("/dev/null").is_err());
    assert!(check_destination_path("/proc/version").is_err());
    assert!(check_destination_path("/sys/class").is_err());
    assert!(check_destination_path("/run/lock").is_err());
}

#[test]
fn destination_paths_compare_by_component() {
    assert!(check_destination_path("/devices/x").is_ok());
    assert!(check_destination_path("dev/x").is_ok());
    assert!(check_destination_path("//dev").is_err());
    assert!(check_destination_path("/./proc").is_err());
    match check_destination_path("/run/lock") {
        Err(SnapshotError::Provider { message }) => {
            assert_eq!(message, "Cannot create workspace in system directory: /run/lock")
        },
        other => panic!("unexpected {:?}", other),
    }
    match check_destination_path("//") {
        Err(SnapshotError::Provider { message }) => assert_eq!(message, "Cannot create workspace at root directory"),
        other => panic!("unexpected {:?}", other),
    }
}

fn caps(kind: SnapshotProviderKind, score: u8) -> ProviderCapabilities {
    ProviderCapabilities { kind, score, supports_cow_overlay: false, notes: vec![] }
}

#[test]
fn provider_selection_takes_first_best_score() {
    let all = vec![
        caps(SnapshotProviderKind::Zfs, 0),
        caps(SnapshotProviderKind::Btrfs, 80),
        caps(SnapshotProviderKind::Git, 10),
    ];
    assert_eq!(select_provider(&all).unwrap(), SnapshotProviderKind::Btrfs);
    let tie = vec![caps(SnapshotProviderKind::Btrfs, 10), caps(SnapshotProviderKind::Git, 10)];
    assert_eq!(select_provider(&tie).unwrap(), SnapshotProviderKind::Btrfs);
    let git_only = vec![caps(SnapshotProviderKind::Btrfs, 0), caps(SnapshotProviderKind::Git, 10)];
    assert_eq!(select_provider(&git_only).unwrap(), SnapshotProviderKind::Git);
    match select_provider(&vec![caps(SnapshotProviderKind::Git, 0)]) {
        Err(SnapshotError::Provider { message }) => assert_eq!(message, "No suitable provider found"),
        other => panic!("unexpected {:?}", other),
    }
}
