//! The steps of a Git snapshot commit.

use agentfs_core::snapshot_commit::{CommitProgress, CommitStep, GitCommand, GitDir, GitOutcome};
use agentfs_core::snapshots::{GitProvider, SnapshotError};

fn provider(include_untracked: bool) -> GitProvider {
    GitProvider::with_config("/shadows".to_string(), "/worktrees".to_string(), include_untracked)
}

fn exited(success: bool, stdout: &str, stderr: &str) -> GitOutcome {
    GitOutcome::Exited { success, stdout: stdout.as_bytes().to_vec(), stderr: stderr.as_bytes().to_vec() }
}

fn expect_run(p: CommitProgress) -> (CommitStep, GitCommand) {
    match p {
        CommitProgress::Run { state, command } => (state, command),
        CommitProgress::Done(r) => panic!("commit ended early: {:?}", r),
    }
}

fn expect_error(p: CommitProgress) -> String {
    match p {
        CommitProgress::Done(Err(SnapshotError::Provider { message })) => message,
        other => panic!("expected a provider error, got {:?}", other),
    }
}

#[test]
fn successful_commit_runs_the_commands_in_order() {
    let git = provider(true);
    let (state, cmd) = expect_run(GitProvider::snapshot_commit_start(Some("before refactor")));
    assert_eq!(cmd.dir, GitDir::Worktree);
    assert!(!cmd.with_index);
    assert_eq!(cmd.args, vec!["rev-parse", "HEAD"]);

    let (state, cmd) = expect_run(git.snapshot_commit_step(state, exited(true, "abc123\n", "")));
    assert_eq!(cmd.dir, GitDir::Worktree);
    assert!(cmd.with_index);
    assert_eq!(cmd.args, vec!["read-tree", "abc123"]);

    let (state, cmd) = expect_run(git.snapshot_commit_step(state, exited(true, "", "")));
    assert!(cmd.with_index);
    assert_eq!(cmd.args, vec!["add", "--all", "--no-ignore-removal"]);

    let (state, cmd) = expect_run(git.snapshot_commit_step(state, exited(true, "", "")));
    assert!(cmd.with_index);
    assert_eq!(cmd.args, vec!["write-tree"]);

    let (state, cmd) = expect_run(git.snapshot_commit_step(state, exited(true, "  tree789 \n", "")));
    assert_eq!(cmd.dir, GitDir::Shadow);
    assert!(!cmd.with_index);
    assert_eq!(cmd.args, vec!["commit-tree", "-m", "AH Snapshot: before refactor", "-p", "abc123", "tree789"]);

    match git.snapshot_commit_step(state, exited(true, "commit456\n", "")) {
        CommitProgress::Done(Ok(hash)) => assert_eq!(hash, "commit456"),
        other => panic!("expected the commit hash, got {:?}", other),
    }
}

#[test]
fn staging_without_untracked_files_adds_all() {
    let git = provider(false);
    let (state, _) = expect_run(GitProvider::snapshot_commit_start(None));
    let (state, _) = expect_run(git.snapshot_commit_step(state, exited(true, "h\n", "")));
    let (_, cmd) = expect_run(git.snapshot_commit_step(state, exited(true, "", "")));
    assert_eq!(cmd.args, vec!["add", "--all"]);
}

#[test]
fn unlabelled_commit_message() {
    let git = provider(false);
    let state = CommitStep::TreeAsked { message: "AH Snapshot".to_string(), head: "h".to_string() };
    let (_, cmd) = expect_run(git.snapshot_commit_step(state, exited(true, "t", "")));
    assert_eq!(cmd.args, vec!["commit-tree", "-m", "AH Snapshot", "-p", "h", "t"]);
}

#[test]
fn failed_head_lookup_ends_the_commit() {
    let git = provider(false);
    let (state, _) = expect_run(GitProvider::snapshot_commit_start(None));
    let message = expect_error(git.snapshot_commit_step(state, exited(false, "", "fatal")));
    assert_eq!(message, "Failed to get HEAD commit from worktree repository");

    let (state, _) = expect_run(GitProvider::snapshot_commit_start(None));
    let message = expect_error(git.snapshot_commit_step(state, GitOutcome::NotStarted("no git".to_string())));
    assert_eq!(message, "Failed to get HEAD commit: no git");
}

#[test]
fn failed_commands_report_their_error_output() {
    let git = provider(false);
    let index = CommitStep::IndexAsked { message: "m".to_string(), head: "h".to_string() };
    assert_eq!(
        expect_error(git.snapshot_commit_step(index, exited(false, "", "bad tree"))),
        "Failed to initialize index: bad tree"
    );
    let stage = CommitStep::StageAsked { message: "m".to_string(), head: "h".to_string() };
    assert_eq!(
        expect_error(git.snapshot_commit_step(stage, exited(false, "", "locked"))),
        "Failed to stage changes for snapshot: locked"
    );
    let stage = CommitStep::StageAsked { message: "m".to_string(), head: "h".to_string() };
    assert_eq!(
        expect_error(git.snapshot_commit_step(stage, GitOutcome::NotStarted("gone".to_string()))),
        "Failed to stage changes: gone"
    );
    let tree = CommitStep::TreeAsked { message: "m".to_string(), head: "h".to_string() };
    assert_eq!(
        expect_error(git.snapshot_commit_step(tree, exited(false, "", "oops"))),
        "Failed to write tree from index: oops"
    );
    assert_eq!(
        expect_error(git.snapshot_commit_step(CommitStep::CommitAsked, exited(false, "", "denied"))),
        "Failed to create snapshot commit: denied"
    );
    assert_eq!(
        expect_error(git.snapshot_commit_step(CommitStep::CommitAsked, GitOutcome::NotStarted("x".to_string()))),
        "Failed to create commit: x"
    );
}
