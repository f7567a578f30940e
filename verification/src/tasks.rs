//! Task lifecycle: tasks with a status and the times they were created and
//! last changed, and a manager that numbers them from 1.

use std::collections::HashMap;
use vstd::prelude::*;
use vstd::string::StringExecFns;

use crate::core_error::{CoreError, CoreResult};
use crate::text::{decimal, decimal_string, owned};
use crate::utc::{utc_now, UtcTime};

verus! {

/// Unique identifier for a task.
#[derive(Clone, Copy, Debug, PartialEq, Eq, Hash, Structural)]
pub struct TaskId(pub u64);

/// Status of a task in its lifecycle.
#[derive(Clone, Copy, Debug, PartialEq, Eq, Structural)]
pub enum TaskStatus {
    /// Created but not yet started.
    Pending,
    /// Running.
    Running,
    /// Completed successfully.
    Completed,
    /// Failed with an error.
    Failed,
    /// Cancelled.
    Cancelled,
}

/// A task.
#[derive(Debug)]
pub struct Task {
    pub id: TaskId,
    pub name: String,
    pub description: String,
    pub status: TaskStatus,
    pub created_at: UtcTime,
    pub updated_at: UtcTime,
    pub metadata: HashMap<String, serde_json::Value>,
}

/// `a` and `b` hold the same task.
pub open spec fn same_task(a: Task, b: Task) -> bool {
    &&& a.id == b.id
    &&& a.name@ == b.name@
    &&& a.description@ == b.description@
    &&& a.status == b.status
    &&& a.created_at == b.created_at
    &&& a.updated_at == b.updated_at
    &&& a.metadata@ == b.metadata@
}

/// `b` is task `a` with status `status`, changed at some later reading of the clock.
pub open spec fn restatused(a: Task, b: Task, status: TaskStatus) -> bool {
    &&& b.id == a.id
    &&& b.name@ == a.name@
    &&& b.description@ == a.description@
    &&& b.status == status
    &&& b.created_at == a.created_at
    &&& b.metadata@ == a.metadata@
}

impl Task {
    /// A pending task without metadata, created and changed now.
    pub fn new(id: TaskId, name: String, description: String) -> (t: Self)
        ensures
            t.id == id,
            t.name == name,
            t.description == description,
            t.status == TaskStatus::Pending,
            t.created_at == t.updated_at,
            t.metadata@ == Map::<String, serde_json::Value>::empty(),
    {
        let now = utc_now();
        Task {
            id,
            name,
            description,
            status: TaskStatus::Pending,
            created_at: now,
            updated_at: now,
            metadata: HashMap::new(),
        }
    }

    /// Sets the status; the task counts as changed now.
    pub fn update_status(&mut self, status: TaskStatus)
        ensures
            restatused(*old(self), *final(self), status),
    {
        self.status = status;
        self.updated_at = utc_now();
    }

    /// A copy of the task.
    pub fn duplicate(&self) -> (t: Self)
        ensures
            same_task(t, *self),
    {
        Task {
            id: self.id,
            name: self.name.clone(),
            description: self.description.clone(),
            status: self.status,
            created_at: self.created_at,
            updated_at: self.updated_at,
            metadata: self.metadata.clone(),
        }
    }
}

/// Message of the error for a task number that does not exist.
pub open spec fn task_not_found(id: u64) -> Seq<char> {
    "Task "@ + decimal(id as nat) + " not found"@
}

/// The tasks of a run, numbered from 1 in order of creation.
pub struct TaskManager {
    tasks: Vec<Task>,
    next_id: TaskId,
}

impl TaskManager {
    /// Tasks are numbered 1, 2, ... in order and the next number follows the last.
    pub closed spec fn wf(self) -> bool {
        &&& self.next_id.0 == self.tasks@.len() + 1
        &&& forall|i: int| 0 <= i < self.tasks@.len() ==> (#[trigger] self.tasks@[i]).id.0 == i + 1
    }

    /// The task numbered `id`, if there is one.
    pub closed spec fn task(self, id: u64) -> Option<Task> {
        if 1 <= id <= self.tasks@.len() {
            Some(self.tasks@[id - 1])
        } else {
            None
        }
    }

    /// The number the next task gets.
    pub closed spec fn next_number(self) -> u64 {
        self.next_id.0
    }

    /// How many tasks there are.
    pub closed spec fn count(self) -> nat {
        self.tasks@.len()
    }

    /// The tasks are numbered 1 to `count()` and the next one gets the next number.
    pub proof fn lemma_numbering(self)
        requires
            self.wf(),
        ensures
            self.next_number() == self.count() + 1,
            forall|id: u64| #[trigger] self.task(id) is Some <==> 1 <= id <= self.count(),
            forall|id: u64| #[trigger] self.task(id) matches Some(t) ==> t.id.0 == id,
    {
    }

    /// A manager without tasks; the first task gets number 1.
    pub fn new() -> (m: Self)
        ensures
            m.wf(),
            m.count() == 0,
            m.next_number() == 1,
    {
        TaskManager { tasks: Vec::new(), next_id: TaskId(1) }
    }

    /// Adds a pending task under the next number and returns that number.
    pub fn create_task(&mut self, name: String, description: String) -> (r: CoreResult<TaskId>)
        requires
            old(self).wf(),
            old(self).next_number() < u64::MAX,
        ensures
            final(self).wf(),
            r matches Ok(id) && {
                &&& id.0 == old(self).next_number()
                &&& old(self).task(id.0) is None
                &&& final(self).next_number() == old(self).next_number() + 1
                &&& final(self).count() == old(self).count() + 1
                &&& final(self).task(id.0) matches Some(t) && t.id == id && t.name == name && t.description
                    == description && t.status == TaskStatus::Pending && t.created_at == t.updated_at
                    && t.metadata@ == Map::<String, serde_json::Value>::empty()
                &&& forall|k: u64| k != id.0 ==> #[trigger] final(self).task(k) == old(self).task(k)
            },
    {
        let id = self.next_id;
        let task = Task::new(id, name, description);
        self.tasks.push(task);
        self.next_id = TaskId(id.0 + 1);
        Ok(id)
    }

    /// A copy of the task numbered `id`, if there is one.
    pub fn get_task(&self, id: TaskId) -> (r: CoreResult<Option<Task>>)
        requires
            self.wf(),
        ensures
            r matches Ok(o) && match self.task(id.0) {
                Some(t) => o matches Some(c) && same_task(c, t),
                None => o is None,
            },
    {
        if id.0 >= 1 && id.0 <= self.tasks.len() as u64 {
            Ok(Some(self.tasks[(id.0 - 1) as usize].duplicate()))
        } else {
            Ok(None)
        }
    }

    /// Sets the status of the task numbered `id`; an error naming the number
    /// when there is no such task.
    pub fn update_task_status(&mut self, id: TaskId, status: TaskStatus) -> (r: CoreResult<()>)
        requires
            old(self).wf(),
        ensures
            final(self).wf(),
            match old(self).task(id.0) {
                Some(t) => {
                    &&& r is Ok
                    &&& final(self).task(id.0) matches Some(u) && restatused(t, u, status)
                    &&& forall|k: u64| k != id.0 ==> #[trigger] final(self).task(k) == old(self).task(k)
                    &&& final(self).next_number() == old(self).next_number()
                },
                None => {
                    &&& r matches Err(e) && e matches CoreError::Task { message } && message@ == task_not_found(id.0)
                    &&& *final(self) == *old(self)
                },
            },
    {
        if id.0 >= 1 && id.0 <= self.tasks.len() as u64 {
            let i = (id.0 - 1) as usize;
            let mut t = self.tasks.remove(i);
            t.update_status(status);
            self.tasks.insert(i, t);
            Ok(())
        } else {
            let message = owned("Task ").concat(decimal_string(id.0).as_str()).concat(" not found");
            Err(CoreError::task(message))
        }
    }

    /// Copies of all tasks, in order of their numbers.
    pub fn list_tasks(&self) -> (r: CoreResult<Vec<Task>>)
        requires
            self.wf(),
        ensures
            r matches Ok(v) && v@.len() == self.count() && forall|i: int|
                0 <= i < v@.len() ==> (self.task((i + 1) as u64) matches Some(t) && same_task(#[trigger] v@[i], t)),
    {
        let mut out: Vec<Task> = Vec::new();
        let mut i: usize = 0;
        while i < self.tasks.len()
            invariant
                i <= self.tasks@.len(),
                out@.len() == i,
                forall|j: int| 0 <= j < i ==> same_task(#[trigger] out@[j], self.tasks@[j]),
            decreases self.tasks@.len() - i,
        {
            out.push(self.tasks[i].duplicate());
            i = i + 1;
        }
        Ok(out)
    }
}

impl Default for TaskManager {
    /// A manager without tasks.
    fn default() -> (m: Self)
        ensures
            m.wf(),
            m.count() == 0,
            m.next_number() == 1,
    {
        Self::new()
    }
}

} // verus!
