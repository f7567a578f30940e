//! Rows of the local state database, and the task they store.

use std::collections::HashMap;
use vstd::prelude::*;
use vstd::string::StringExecFns;

use crate::tasks;
use crate::text::{owned, signed_decimal, signed_decimal_string};
use crate::utc::{utc_now, UtcTime};

verus! {

/// Unique identifier for a stored task.
#[derive(Clone, Copy, Debug, PartialEq, Eq, Hash, Structural)]
pub struct TaskId(pub u64);

/// Status of a stored task.
#[derive(Clone, Copy, Debug, PartialEq, Eq, Structural)]
pub enum TaskStatus {
    /// Created but not yet started.
    Pending,
    /// Running.
    Running,
    /// Completed successfully.
    Completed,
    /// Failed with an error.
    Failed,
    /// Cancelled.
    Cancelled,
}

/// A stored task.
#[derive(Debug)]
pub struct Task {
    pub id: TaskId,
    pub name: String,
    pub description: String,
    pub status: TaskStatus,
    pub created_at: UtcTime,
    pub updated_at: UtcTime,
    pub metadata: HashMap<String, serde_json::Value>,
}

/// The orchestration status for a stored status.
pub open spec fn core_status(s: TaskStatus) -> tasks::TaskStatus {
    match s {
        TaskStatus::Pending => tasks::TaskStatus::Pending,
        TaskStatus::Running => tasks::TaskStatus::Running,
        TaskStatus::Completed => tasks::TaskStatus::Completed,
        TaskStatus::Failed => tasks::TaskStatus::Failed,
        TaskStatus::Cancelled => tasks::TaskStatus::Cancelled,
    }
}

impl Task {
    /// The same task as orchestration sees it.
    pub fn to_ah_core_task(&self) -> (t: tasks::Task)
        ensures
            t.id.0 == self.id.0,
            t.name@ == self.name@,
            t.description@ == self.description@,
            t.status == core_status(self.status),
            t.created_at == self.created_at,
            t.updated_at == self.updated_at,
            t.metadata@ == self.metadata@,
    {
        tasks::Task {
            id: tasks::TaskId(self.id.0),
            name: self.name.clone(),
            description: self.description.clone(),
            status: match self.status {
                TaskStatus::Pending => tasks::TaskStatus::Pending,
                TaskStatus::Running => tasks::TaskStatus::Running,
                TaskStatus::Completed => tasks::TaskStatus::Completed,
                TaskStatus::Failed => tasks::TaskStatus::Failed,
                TaskStatus::Cancelled => tasks::TaskStatus::Cancelled,
            },
            created_at: self.created_at,
            updated_at: self.updated_at,
            metadata: self.metadata.clone(),
        }
    }
}

/// Row of a repository.
#[derive(Clone, Debug)]
pub struct RepoRecord {
    pub id: i64,
    pub vcs: String,
    pub root_path: Option<String>,
    pub remote_url: Option<String>,
    pub default_branch: Option<String>,
    pub created_at: String,
}

/// Row of a workspace.
#[derive(Clone, Debug)]
pub struct WorkspaceRecord {
    pub id: i64,
    pub name: String,
    pub external_id: Option<String>,
    pub created_at: String,
}

/// Row of an agent.
#[derive(Clone, Debug)]
pub struct AgentRecord {
    pub id: i64,
    pub name: String,
    pub version: String,
    pub metadata: Option<String>,
}

/// Row of a runtime.
#[derive(Clone, Debug)]
pub struct RuntimeRecord {
    pub id: i64,
    /// The runtime's type.
    pub type_: String,
    pub devcontainer_path: Option<String>,
    pub metadata: Option<String>,
}

/// Row of a session.
#[derive(Clone, Debug)]
pub struct SessionRecord {
    pub id: String,
    pub repo_id: Option<i64>,
    pub workspace_id: Option<i64>,
    pub agent_id: Option<i64>,
    pub runtime_id: Option<i64>,
    pub multiplexer_kind: Option<String>,
    pub mux_session: Option<String>,
    pub mux_window: Option<i64>,
    pub pane_left: Option<String>,
    pub pane_right: Option<String>,
    pub pid_agent: Option<i64>,
    pub status: String,
    pub log_path: Option<String>,
    pub workspace_path: Option<String>,
    pub started_at: String,
    pub ended_at: Option<String>,
}

/// Row of a task.
#[derive(Clone, Debug)]
pub struct TaskRecord {
    pub id: i64,
    pub session_id: String,
    pub prompt: String,
    pub branch: Option<String>,
    pub delivery: Option<String>,
    pub instances: Option<i64>,
    pub labels: Option<String>,
    pub browser_automation: i64,
    pub browser_profile: Option<String>,
    pub chatgpt_username: Option<String>,
    pub codex_workspace: Option<String>,
}

/// Name a task read back from row `id` gets.
pub open spec fn stored_task_name(id: i64) -> Seq<char> {
    "Task "@ + signed_decimal(id as int)
}

impl TaskRecord {
    /// The row for `task`: its number and description; session and branch
    /// are filled in when the row is written; browser automation on.
    pub fn from_task(task: &Task) -> (r: Self)
        ensures
            r.id == task.id.0 as i64,
            r.session_id@ == Seq::<char>::empty(),
            r.prompt@ == task.description@,
            r.branch is None,
            r.delivery is None,
            r.instances is None,
            r.labels is None,
            r.browser_automation == 1,
            r.browser_profile is None,
            r.chatgpt_username is None,
            r.codex_workspace is None,
    {
        TaskRecord {
            id: #[verifier::truncate] (task.id.0 as i64),
            session_id: String::new(),
            prompt: task.description.clone(),
            branch: None,
            delivery: None,
            instances: None,
            labels: None,
            browser_automation: 1,
            browser_profile: None,
            chatgpt_username: None,
            codex_workspace: None,
        }
    }

    /// The task stored in this row: pending, named after the row's number,
    /// described by the prompt, created and changed now, without metadata.
    pub fn to_task(&self) -> (t: Task)
        ensures
            t.id.0 == self.id as u64,
            t.name@ == stored_task_name(self.id),
            t.description@ == self.prompt@,
            t.status == TaskStatus::Pending,
            t.metadata@ == Map::<String, serde_json::Value>::empty(),
    {
        let metadata = HashMap::new();
        let name = owned("Task ").concat(signed_decimal_string(self.id).as_str());
        Task {
            id: TaskId(#[verifier::truncate] (self.id as u64)),
            name,
            description: self.prompt.clone(),
            status: TaskStatus::Pending,
            created_at: utc_now(),
            updated_at: utc_now(),
            metadata,
        }
    }
}

/// Row of an event.
#[derive(Clone, Debug)]
pub struct EventRecord {
    pub id: i64,
    pub session_id: String,
    pub ts: String,
    /// The event's type.
    pub type_: String,
    pub data: Option<String>,
}

/// Row of a filesystem snapshot.
#[derive(Clone, Debug)]
pub struct FsSnapshotRecord {
    pub id: i64,
    pub session_id: String,
    pub ts: String,
    pub provider: String,
    /// The provider's reference for the snapshot.
    pub ref_: Option<String>,
    pub path: Option<String>,
    pub parent_id: Option<i64>,
    pub metadata: Option<String>,
}

} // verus!
