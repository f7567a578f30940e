//! Committing a snapshot of a Git worktree to its shadow repository, one
//! `git` command at a time: which command runs next, and what the outcome of
//! the last one decides. Running the commands is the caller's part.
//!
//! The commands are, in order: `rev-parse HEAD` in the worktree; `read-tree`
//! of that commit, `add` and `write-tree` in the worktree against a private
//! index; and `commit-tree` in the shadow repository. The first that cannot
//! be started or exits with failure ends the commit with an error.

use vstd::prelude::*;
use vstd::string::StringExecFns;

use crate::snapshots::{commit_message_text, GitProvider, SnapshotError};
use crate::text::{from_utf8_lossy, owned, strings, trim, trimmed, utf8_lossy};

verus! {

/// Where a `git` command of a snapshot commit runs.
#[derive(Clone, Copy, Debug, PartialEq, Eq, Structural)]
pub enum GitDir {
    /// The worktree being snapshotted.
    Worktree,
    /// The shadow repository that receives the commit.
    Shadow,
}

/// A `git` command to run.
#[derive(Clone, Debug)]
pub struct GitCommand {
    /// The directory it runs in.
    pub dir: GitDir,
    /// Whether it runs against the commit's private index.
    pub with_index: bool,
    /// Its arguments.
    pub args: Vec<String>,
}

/// How the last command went.
#[derive(Clone, Debug)]
pub enum GitOutcome {
    /// It could not be started; the text of the error.
    NotStarted(String),
    /// It ran: whether it exited with success, and what it wrote.
    Exited { success: bool, stdout: Vec<u8>, stderr: Vec<u8> },
}

/// Where a snapshot commit stands: which command was handed out last, with
/// the commit message and what earlier commands gave.
#[derive(Clone, Debug)]
pub enum CommitStep {
    /// `rev-parse HEAD` was handed out.
    HeadAsked { message: String },
    /// `read-tree` of `head` was handed out.
    IndexAsked { message: String, head: String },
    /// The staging `add` was handed out.
    StageAsked { message: String, head: String },
    /// `write-tree` was handed out.
    TreeAsked { message: String, head: String },
    /// `commit-tree` was handed out.
    CommitAsked,
}

/// What the caller does next.
#[derive(Debug)]
pub enum CommitProgress {
    /// Run `command`, then hand its outcome back with `state`.
    Run { state: CommitStep, command: GitCommand },
    /// The commit is over: the new commit's hash, or why it failed.
    Done(Result<String, SnapshotError>),
}

/// Text of command output, decoded as `String::from_utf8_lossy` does and trimmed.
pub open spec fn output_text(bytes: Seq<u8>) -> Seq<char> {
    trimmed(utf8_lossy(bytes))
}

/// Whether `p` hands out `args` to run in `dir`, with or without the private index.
pub open spec fn runs(p: CommitProgress, dir: GitDir, with_index: bool, args: Seq<Seq<char>>) -> bool {
    p matches CommitProgress::Run { command, .. } && command.dir == dir && command.with_index == with_index
        && strings(command.args@) == args
}

/// Whether `p` ends the commit with a provider error of text `message`.
pub open spec fn fails_with(p: CommitProgress, message: Seq<char>) -> bool {
    p matches CommitProgress::Done(Err(SnapshotError::Provider { message: m })) && m@ == message
}

/// The state that `p` hands back, when it runs a command.
pub open spec fn next_state(p: CommitProgress) -> CommitStep
    recommends
        p is Run,
{
    p->state
}

/// Whether state `s` holds commit message `message` and HEAD commit `head`
/// and is the state of kind `kind` (1: index, 2: staging, 3: tree).
pub open spec fn holds(s: CommitStep, kind: int, message: Seq<char>, head: Seq<char>) -> bool {
    match s {
        CommitStep::IndexAsked { message: m, head: h } => kind == 1 && m@ == message && h@ == head,
        CommitStep::StageAsked { message: m, head: h } => kind == 2 && m@ == message && h@ == head,
        CommitStep::TreeAsked { message: m, head: h } => kind == 3 && m@ == message && h@ == head,
        _ => false,
    }
}

/// What a failed or unstarted command ends the commit with: `started` is the
/// text used when the command could not be started (followed by the error),
/// `exited` the one used when it failed (followed by its error output, or
/// alone when `with_output` is false).
pub open spec fn failure_of(ev: GitOutcome, started: Seq<char>, exited: Seq<char>, with_output: bool) -> Seq<char> {
    match ev {
        GitOutcome::NotStarted(e) => started + e@,
        GitOutcome::Exited { stderr, .. } => if with_output {
            exited + utf8_lossy(stderr@)
        } else {
            exited
        },
    }
}

/// Whether outcome `ev` is a command that ran and exited with success.
pub open spec fn succeeded(ev: GitOutcome) -> bool {
    ev matches GitOutcome::Exited { success, .. } && success
}

/// What `ev` wrote to its standard output (empty when it did not start).
pub open spec fn stdout_of(ev: GitOutcome) -> Seq<u8> {
    match ev {
        GitOutcome::Exited { stdout, .. } => stdout@,
        GitOutcome::NotStarted(_) => Seq::empty(),
    }
}

impl GitProvider {
    /// Arguments of the staging `git add`.
    pub open spec fn staging_args(self) -> Seq<Seq<char>> {
        if self.include_untracked {
            seq!["add"@, "--all"@, "--no-ignore-removal"@]
        } else {
            seq!["add"@, "--all"@]
        }
    }

    /// What one step of a snapshot commit answers in state `s` to outcome
    /// `ev`: on success the next command (with what it needs from `ev`), on
    /// failure the error of that command, and after `commit-tree` the new
    /// commit's hash.
    pub open spec fn commit_step_answer(self, s: CommitStep, ev: GitOutcome, r: CommitProgress) -> bool {
        match s {
            CommitStep::HeadAsked { message } => if succeeded(ev) {
                let head = output_text(stdout_of(ev));
                &&& runs(r, GitDir::Worktree, true, seq!["read-tree"@, head])
                &&& holds(next_state(r), 1, message@, head)
            } else {
                fails_with(
                    r,
                    failure_of(
                        ev,
                        "Failed to get HEAD commit: "@,
                        "Failed to get HEAD commit from worktree repository"@,
                        false,
                    ),
                )
            },
            CommitStep::IndexAsked { message, head } => if succeeded(ev) {
                &&& runs(r, GitDir::Worktree, true, self.staging_args())
                &&& holds(next_state(r), 2, message@, head@)
            } else {
                fails_with(r, failure_of(ev, "Failed to initialize index: "@, "Failed to initialize index: "@, true))
            },
            CommitStep::StageAsked { message, head } => if succeeded(ev) {
                &&& runs(r, GitDir::Worktree, true, seq!["write-tree"@])
                &&& holds(next_state(r), 3, message@, head@)
            } else {
                fails_with(
                    r,
                    failure_of(ev, "Failed to stage changes: "@, "Failed to stage changes for snapshot: "@, true),
                )
            },
            CommitStep::TreeAsked { message, head } => if succeeded(ev) {
                let tree = output_text(stdout_of(ev));
                &&& runs(r, GitDir::Shadow, false, seq!["commit-tree"@, "-m"@, message@, "-p"@, head@, tree])
                &&& next_state(r) is CommitAsked
            } else {
                fails_with(
                    r,
                    failure_of(ev, "Failed to write tree: "@, "Failed to write tree from index: "@, true),
                )
            },
            CommitStep::CommitAsked => if succeeded(ev) {
                r matches CommitProgress::Done(Ok(hash)) && hash@ == output_text(stdout_of(ev))
            } else {
                fails_with(
                    r,
                    failure_of(ev, "Failed to create commit: "@, "Failed to create snapshot commit: "@, true),
                )
            },
        }
    }

    /// The first step of committing a snapshot labelled `label`: ask the
    /// worktree for its HEAD commit.
    pub fn snapshot_commit_start(label: Option<&str>) -> (p: CommitProgress)
        ensures
            runs(p, GitDir::Worktree, false, seq!["rev-parse"@, "HEAD"@]),
            next_state(p) matches CommitStep::HeadAsked { message } && message@ == commit_message_text(
                match label {
                    Some(l) => Some(l@),
                    None => None::<Seq<char>>,
                },
            ),
    {
        let message = GitProvider::commit_message(label);
        let mut args: Vec<String> = Vec::new();
        args.push(owned("rev-parse"));
        args.push(owned("HEAD"));
        assert(strings(args@) =~= seq!["rev-parse"@, "HEAD"@]);
        CommitProgress::Run {
            state: CommitStep::HeadAsked { message },
            command: GitCommand { dir: GitDir::Worktree, with_index: false, args },
        }
    }

    /// The next step of a snapshot commit in state `s`, given the outcome
    /// `ev` of the command handed out last.
    pub fn snapshot_commit_step(&self, s: CommitStep, ev: GitOutcome) -> (r: CommitProgress)
        ensures
            self.commit_step_answer(s, ev, r),
    {
        let ok = match &ev {
            GitOutcome::Exited { success, .. } => *success,
            GitOutcome::NotStarted(_) => false,
        };
        match s {
            CommitStep::HeadAsked { message } => {
                if ok {
                    let head = output_of(&ev);
                    let mut args: Vec<String> = Vec::new();
                    args.push(owned("read-tree"));
                    args.push(head.clone());
                    assert(strings(args@) =~= seq!["read-tree"@, head@]);
                    CommitProgress::Run {
                        state: CommitStep::IndexAsked { message, head },
                        command: GitCommand { dir: GitDir::Worktree, with_index: true, args },
                    }
                } else {
                    failure(
                        ev,
                        "Failed to get HEAD commit: ",
                        "Failed to get HEAD commit from worktree repository",
                        false,
                    )
                }
            },
            CommitStep::IndexAsked { message, head } => {
                if ok {
                    let args = self.add_args();
                    CommitProgress::Run {
                        state: CommitStep::StageAsked { message, head },
                        command: GitCommand { dir: GitDir::Worktree, with_index: true, args },
                    }
                } else {
                    failure(ev, "Failed to initialize index: ", "Failed to initialize index: ", true)
                }
            },
            CommitStep::StageAsked { message, head } => {
                if ok {
                    let mut args: Vec<String> = Vec::new();
                    args.push(owned("write-tree"));
                    assert(strings(args@) =~= seq!["write-tree"@]);
                    CommitProgress::Run {
                        state: CommitStep::TreeAsked { message, head },
                        command: GitCommand { dir: GitDir::Worktree, with_index: true, args },
                    }
                } else {
                    failure(ev, "Failed to stage changes: ", "Failed to stage changes for snapshot: ", true)
                }
            },
            CommitStep::TreeAsked { message, head } => {
                if ok {
                    let tree = output_of(&ev);
                    let mut args: Vec<String> = Vec::new();
                    args.push(owned("commit-tree"));
                    args.push(owned("-m"));
                    args.push(message);
                    args.push(owned("-p"));
                    args.push(head);
                    args.push(tree);
                    assert(strings(args@) =~= seq![
                        "commit-tree"@,
                        "-m"@,
                        args@[2]@,
                        "-p"@,
                        args@[4]@,
                        args@[5]@,
                    ]);
                    CommitProgress::Run {
                        state: CommitStep::CommitAsked,
                        command: GitCommand { dir: GitDir::Shadow, with_index: false, args },
                    }
                } else {
                    failure(ev, "Failed to write tree: ", "Failed to write tree from index: ", true)
                }
            },
            CommitStep::CommitAsked => {
                if ok {
                    CommitProgress::Done(Ok(output_of(&ev)))
                } else {
                    failure(ev, "Failed to create commit: ", "Failed to create snapshot commit: ", true)
                }
            },
        }
    }
}

/// The trimmed text a command wrote to its standard output.
fn output_of(ev: &GitOutcome) -> (t: String)
    ensures
        t@ == output_text(stdout_of(*ev)),
{
    match ev {
        GitOutcome::Exited { stdout, .. } => {
            let text = from_utf8_lossy(stdout.as_slice());
            trim(text.as_str())
        },
        GitOutcome::NotStarted(_) => {
            let empty: Vec<u8> = Vec::new();
            let text = from_utf8_lossy(empty.as_slice());
            trim(text.as_str())
        },
    }
}

/// The provider error that ends a commit after outcome `ev` (see [`failure_of`]).
fn failure(ev: GitOutcome, started: &str, exited: &str, with_output: bool) -> (p: CommitProgress)
    ensures
        fails_with(p, failure_of(ev, started@, exited@, with_output)),
{
    let message = match ev {
        GitOutcome::NotStarted(e) => owned(started).concat(e.as_str()),
        GitOutcome::Exited { stderr, .. } => if with_output {
            let text = from_utf8_lossy(stderr.as_slice());
            owned(exited).concat(text.as_str())
        } else {
            owned(exited)
        },
    };
    CommitProgress::Done(Err(SnapshotError::provider(message)))
}


/// A snapshot commit in which every command succeeds runs `read-tree` of the
/// HEAD commit that `rev-parse` printed, the staging `add`, `write-tree`, and
/// `commit-tree` of that tree with HEAD as parent in the shadow repository,
/// in that order, and ends with the hash that `commit-tree` printed.
pub proof fn law_successful_commit(
    git: GitProvider,
    message: String,
    ev1: GitOutcome,
    r1: CommitProgress,
    ev2: GitOutcome,
    r2: CommitProgress,
    ev3: GitOutcome,
    r3: CommitProgress,
    ev4: GitOutcome,
    r4: CommitProgress,
    ev5: GitOutcome,
    r5: CommitProgress,
)
    requires
        succeeded(ev1) && succeeded(ev2) && succeeded(ev3) && succeeded(ev4) && succeeded(ev5),
        git.commit_step_answer(CommitStep::HeadAsked { message }, ev1, r1),
        git.commit_step_answer(next_state(r1), ev2, r2),
        git.commit_step_answer(next_state(r2), ev3, r3),
        git.commit_step_answer(next_state(r3), ev4, r4),
        git.commit_step_answer(next_state(r4), ev5, r5),
    ensures
        runs(r1, GitDir::Worktree, true, seq!["read-tree"@, output_text(stdout_of(ev1))]),
        runs(r2, GitDir::Worktree, true, git.staging_args()),
        runs(r3, GitDir::Worktree, true, seq!["write-tree"@]),
        runs(
            r4,
            GitDir::Shadow,
            false,
            seq!["commit-tree"@, "-m"@, message@, "-p"@, output_text(stdout_of(ev1)), output_text(stdout_of(ev4))],
        ),
        r5 matches CommitProgress::Done(Ok(hash)) && hash@ == output_text(stdout_of(ev5)),
{
}

} // verus!
