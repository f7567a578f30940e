//! Options of the `task create` command and the decisions the command takes
//! around the work it hands to the repository, the editor, the database and
//! the push handler: which options may go together, whether a new branch is
//! started, which branches are refused, whether a dev shell may be recorded,
//! where the task text comes from, whether it is acceptable, whether and how
//! to push, and the rows recorded for the task.

use vstd::prelude::*;
use vstd::string::StringExecFns;

use crate::push::{flag_value, invalid_flag_message, parse_push_to_remote_flag};
use crate::push::lowercase;
use crate::records::{SessionRecord, TaskRecord};
use crate::text::{is_blank, is_blank_str, owned, str_eq};

verus! {

/// Task-related commands.
pub enum TaskCommands {
    /// Create a new task or add one to an existing task branch.
    Create(TaskCreateArgs),
}

/// Options of `task create`.
#[derive(Clone, Debug)]
pub struct TaskCreateArgs {
    /// Branch for a new task; none (or a blank one) adds to the current branch.
    pub branch: Option<String>,
    /// The task text.
    pub prompt: Option<String>,
    /// Path of a file holding the task text.
    pub prompt_file: Option<String>,
    /// Dev shell to record with a new branch.
    pub devshell: Option<String>,
    /// Whether to push the branch (true/false/yes/no and the like).
    pub push_to_remote: Option<String>,
    /// Ask nothing.
    pub non_interactive: bool,
    /// Sandbox kind, `none` for none.
    pub sandbox: String,
    pub allow_network: String,
    pub allow_containers: String,
    pub allow_kvm: String,
    pub seccomp: String,
    pub seccomp_debug: String,
    /// Further writable paths.
    pub mount_rw: Vec<String>,
    /// Paths given copy-on-write overlays.
    pub overlay: Vec<String>,
}

/// Message refusing `--prompt` together with `--prompt-file`.
pub open spec fn exclusive_prompt_message() -> Seq<char> {
    "Error: --prompt and --prompt-file are mutually exclusive"@
}

/// Message refusing to add a task to a main branch.
pub open spec fn main_branch_message() -> Seq<char> {
    "Error: Refusing to run on the main branch"@
}

/// Message refusing a dev shell when no branch is started.
pub open spec fn devshell_new_branch_message() -> Seq<char> {
    "Error: --devshell is only supported when creating a new branch"@
}

/// Message refusing a dev shell in a repository without `flake.nix`.
pub open spec fn no_flake_message() -> Seq<char> {
    "Error: Repository does not contain a flake.nix file"@
}

/// Message refusing dev shell `d` that `flake.nix` does not define.
pub open spec fn unknown_devshell_message(d: Seq<char>) -> Seq<char> {
    "Error: Dev shell '"@ + d + "' not found in flake.nix"@
}

/// Message refusing to wait for an editor without interaction.
pub open spec fn non_interactive_message() -> Seq<char> {
    "Error: Non-interactive mode requires --prompt or --prompt-file"@
}

/// Message for blank task text.
pub open spec fn empty_prompt_message() -> Seq<char> {
    "Aborted: empty task prompt."@
}

/// Branch `b` counts as a main branch of a repository whose default branch
/// is `default`.
pub open spec fn is_main_branch(b: Seq<char>, default: Seq<char>) -> bool {
    b == default || b == "main"@ || b == "master"@ || b == "trunk"@ || b == "default"@
}

/// The names of `v`.
pub open spec fn names(v: Seq<String>) -> Seq<Seq<char>> {
    v.map_values(|s: String| s@)
}

/// Whether `v` holds a string equal to `s`.
fn contains_str(v: &Vec<String>, s: &str) -> (r: bool)
    ensures
        r == names(v@).contains(s@),
{
    let mut i: usize = 0;
    while i < v.len()
        invariant
            i <= v@.len(),
            forall|j: int| 0 <= j < i ==> (#[trigger] v@[j])@ != s@,
        decreases v@.len() - i,
    {
        if str_eq(v[i].as_str(), s) {
            assert(names(v@)[i as int] == s@);
            return true;
        }
        i = i + 1;
    }
    assert(!names(v@).contains(s@)) by {
        if names(v@).contains(s@) {
            let k = choose|k: int| 0 <= k < names(v@).len() && names(v@)[k] == s@;
            assert(v@[k]@ == s@);
        }
    }
    false
}

impl TaskCreateArgs {
    /// `--prompt` and `--prompt-file` exclude each other.
    pub fn check_prompt_options(&self) -> (r: Result<(), String>)
        ensures
            match r {
                Ok(_) => !(self.prompt is Some && self.prompt_file is Some),
                Err(m) => self.prompt is Some && self.prompt_file is Some && m@ == exclusive_prompt_message(),
            },
    {
        if self.prompt.is_some() && self.prompt_file.is_some() {
            Err(owned("Error: --prompt and --prompt-file are mutually exclusive"))
        } else {
            Ok(())
        }
    }

    /// The branch to start: the one given, unless none or a blank one was.
    pub fn new_branch_name(&self) -> (r: Option<String>)
        ensures
            match self.branch {
                Some(b) => if is_blank(b@) {
                    r is None
                } else {
                    r == Some(b)
                },
                None => r is None,
            },
    {
        match &self.branch {
            Some(b) => if is_blank_str(b.as_str()) {
                None
            } else {
                Some(b.clone())
            },
            None => None,
        }
    }

    /// Adding a task to the current branch `branch_name` (of a repository
    /// whose default branch is `default_branch`) is refused on a main branch
    /// and together with a dev shell.
    pub fn validate_existing_branch(&self, branch_name: &str, default_branch: &str) -> (r: Result<(), String>)
        ensures
            match r {
                Ok(_) => !is_main_branch(branch_name@, default_branch@) && self.devshell is None,
                Err(m) => if is_main_branch(branch_name@, default_branch@) {
                    m@ == main_branch_message()
                } else {
                    self.devshell is Some && m@ == devshell_new_branch_message()
                },
            },
    {
        proof {
            reveal_strlit("main");
            reveal_strlit("master");
            reveal_strlit("trunk");
            reveal_strlit("default");
        }
        if str_eq(branch_name, default_branch) || str_eq(branch_name, "main") || str_eq(branch_name, "master")
            || str_eq(branch_name, "trunk") || str_eq(branch_name, "default") {
            return Err(owned("Error: Refusing to run on the main branch"));
        }
        if self.devshell.is_some() {
            return Err(owned("Error: --devshell is only supported when creating a new branch"));
        }
        Ok(())
    }

    /// A dev shell recorded with a new branch must be one that the
    /// repository's `flake.nix` (if `flake_exists`) defines among `shells`.
    pub fn check_devshell(&self, flake_exists: bool, shells: &Vec<String>) -> (r: Result<(), String>)
        ensures
            match self.devshell {
                None => r is Ok,
                Some(d) => if !flake_exists {
                    r matches Err(m) && m@ == no_flake_message()
                } else if !names(shells@).contains(d@) {
                    r matches Err(m) && m@ == unknown_devshell_message(d@)
                } else {
                    r is Ok
                },
            },
    {
        match &self.devshell {
            None => Ok(()),
            Some(d) => {
                if !flake_exists {
                    return Err(owned("Error: Repository does not contain a flake.nix file"));
                }
                if !contains_str(shells, d.as_str()) {
                    let m = owned("Error: Dev shell '").concat(d.as_str()).concat("' not found in flake.nix");
                    return Err(m);
                }
                Ok(())
            },
        }
    }

    /// Where the task text comes from: the text given by `--prompt` or read
    /// from `--prompt-file` (`prompt_content`), else the editor (`Ok(None)`),
    /// which is refused in non-interactive mode.
    pub fn content_plan(&self, prompt_content: Option<String>) -> (r: Result<Option<String>, String>)
        ensures
            match prompt_content {
                Some(c) => r == Ok::<Option<String>, String>(Some(c)),
                None => if self.non_interactive {
                    r matches Err(m) && m@ == non_interactive_message()
                } else {
                    r == Ok::<Option<String>, String>(None)
                },
            },
    {
        match prompt_content {
            Some(c) => Ok(Some(c)),
            None => if self.non_interactive {
                Err(owned("Error: Non-interactive mode requires --prompt or --prompt-file"))
            } else {
                Ok(None)
            },
        }
    }

    /// Whether and how to push: an explicit `--push-to-remote` value decides
    /// (`Some(Some(b))`, an error for a value that is not a flag);
    /// otherwise the push handler asks (`Some(None)`), except in
    /// non-interactive mode, where nothing is pushed (`None`).
    pub fn push_plan(&self) -> (r: Result<Option<Option<bool>>, String>)
        ensures
            match self.push_to_remote {
                Some(f) => match flag_value(lowercase(f@)) {
                    Some(b) => r == Ok::<Option<Option<bool>>, String>(Some(Some(b))),
                    None => r matches Err(m) && m@ == invalid_flag_message(lowercase(f@)),
                },
                None => if self.non_interactive {
                    r == Ok::<Option<Option<bool>>, String>(None)
                } else {
                    r == Ok::<Option<Option<bool>>, String>(Some(None))
                },
            },
    {
        match &self.push_to_remote {
            Some(f) => match parse_push_to_remote_flag(f.as_str()) {
                Ok(b) => Ok(Some(Some(b))),
                Err(m) => Err(m),
            },
            None => if self.non_interactive {
                Ok(None)
            } else {
                Ok(Some(None))
            },
        }
    }

    /// Whether the task runs in a sandbox.
    pub fn uses_sandbox(&self) -> (r: bool)
        ensures
            r == (self.sandbox@ != "none"@),
    {
        !str_eq(self.sandbox.as_str(), "none")
    }
}

/// Task text must not be blank.
pub fn check_task_content(content: &str) -> (r: Result<(), String>)
    ensures
        match r {
            Ok(_) => !is_blank(content@),
            Err(m) => is_blank(content@) && m@ == empty_prompt_message(),
        },
{
    if is_blank_str(content) {
        Err(owned("Aborted: empty task prompt."))
    } else {
        Ok(())
    }
}

/// The row recording session `session_id` of a new task: created now
/// (`started_at`), in the repository, agent and runtime rows given, with no
/// workspace, multiplexer, agent process, log or end yet.
pub fn session_record_for(session_id: String, repo_id: i64, agent_id: i64, runtime_id: i64, started_at: String) -> (r:
    SessionRecord)
    ensures
        r.id == session_id,
        r.repo_id == Some(repo_id),
        r.workspace_id is None,
        r.agent_id == Some(agent_id),
        r.runtime_id == Some(runtime_id),
        r.multiplexer_kind is None,
        r.mux_session is None,
        r.mux_window is None,
        r.pane_left is None,
        r.pane_right is None,
        r.pid_agent is None,
        r.status@ == "created"@,
        r.log_path is None,
        r.workspace_path is None,
        r.started_at == started_at,
        r.ended_at is None,
{
    SessionRecord {
        id: session_id,
        repo_id: Some(repo_id),
        workspace_id: None,
        agent_id: Some(agent_id),
        runtime_id: Some(runtime_id),
        multiplexer_kind: None,
        mux_session: None,
        mux_window: None,
        pane_left: None,
        pane_right: None,
        pid_agent: None,
        status: owned("created"),
        log_path: None,
        workspace_path: None,
        started_at,
        ended_at: None,
    }
}

/// The row recording task text `prompt` of session `session_id` on branch
/// `branch`: numbered by the database, delivered as a branch, one instance,
/// browser automation on.
pub fn task_record_for(session_id: String, prompt: String, branch: String) -> (r: TaskRecord)
    ensures
        r.id == 0,
        r.session_id == session_id,
        r.prompt == prompt,
        r.branch == Some(branch),
        r.delivery matches Some(d) && d@ == "branch"@,
        r.instances == Some(1i64),
        r.labels is None,
        r.browser_automation == 1,
        r.browser_profile is None,
        r.chatgpt_username is None,
        r.codex_workspace is None,
{
    TaskRecord {
        id: 0,
        session_id,
        prompt,
        branch: Some(branch),
        delivery: Some(owned("branch")),
        instances: Some(1),
        labels: None,
        browser_automation: 1,
        browser_profile: None,
        chatgpt_username: None,
        codex_workspace: None,
    }
}

} // verus!
