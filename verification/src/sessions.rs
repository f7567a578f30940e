//! Session lifecycle: sessions of a task with a status and the times they
//! were created, last changed, started and finished, and a manager that
//! numbers them from 1.

use std::collections::HashMap;
use vstd::prelude::*;
use vstd::string::StringExecFns;

use crate::core_error::{CoreError, CoreResult};
use crate::tasks::TaskId;
use crate::text::{decimal, decimal_string, owned};
use crate::utc::{utc_now, UtcTime};

verus! {

/// Unique identifier for a session.
#[derive(Clone, Copy, Debug, PartialEq, Eq, Hash, Structural)]
pub struct SessionId(pub u64);

/// Status of a session in its lifecycle.
#[derive(Clone, Copy, Debug, PartialEq, Eq, Structural)]
pub enum SessionStatus {
    /// Created but not yet started.
    Created,
    /// Active and running.
    Active,
    /// Paused.
    Paused,
    /// Completed successfully.
    Completed,
    /// Failed with an error.
    Failed,
    /// Cancelled.
    Cancelled,
}

/// Whether a session in `status` has finished.
pub open spec fn is_final(status: SessionStatus) -> bool {
    status == SessionStatus::Completed || status == SessionStatus::Failed || status == SessionStatus::Cancelled
}

/// A session.
#[derive(Debug)]
pub struct Session {
    pub id: SessionId,
    pub task_id: TaskId,
    pub name: String,
    pub status: SessionStatus,
    pub created_at: UtcTime,
    pub updated_at: UtcTime,
    pub started_at: Option<UtcTime>,
    pub finished_at: Option<UtcTime>,
    pub metadata: HashMap<String, serde_json::Value>,
}

/// `a` and `b` hold the same session.
pub open spec fn same_session(a: Session, b: Session) -> bool {
    &&& a.id == b.id
    &&& a.task_id == b.task_id
    &&& a.name@ == b.name@
    &&& a.status == b.status
    &&& a.created_at == b.created_at
    &&& a.updated_at == b.updated_at
    &&& a.started_at == b.started_at
    &&& a.finished_at == b.finished_at
    &&& a.metadata@ == b.metadata@
}

/// `b` is session `a` moved to `status` at some later reading of the clock:
/// the first move to `Active` records the start, the first move to a final
/// status records the finish; a start or finish once recorded stays.
pub open spec fn moved_to(a: Session, b: Session, status: SessionStatus) -> bool {
    &&& b.id == a.id
    &&& b.task_id == a.task_id
    &&& b.name@ == a.name@
    &&& b.status == status
    &&& b.created_at == a.created_at
    &&& b.metadata@ == a.metadata@
    &&& if status == SessionStatus::Active && a.started_at is None {
        b.started_at is Some
    } else {
        b.started_at == a.started_at
    }
    &&& if is_final(status) && a.finished_at is None {
        b.finished_at is Some
    } else {
        b.finished_at == a.finished_at
    }
}

impl Session {
    /// A created session of task `task_id`, neither started nor finished,
    /// without metadata, created and changed now.
    pub fn new(id: SessionId, task_id: TaskId, name: String) -> (s: Self)
        ensures
            s.id == id,
            s.task_id == task_id,
            s.name == name,
            s.status == SessionStatus::Created,
            s.created_at == s.updated_at,
            s.started_at is None,
            s.finished_at is None,
            s.metadata@ == Map::<String, serde_json::Value>::empty(),
    {
        let now = utc_now();
        Session {
            id,
            task_id,
            name,
            status: SessionStatus::Created,
            created_at: now,
            updated_at: now,
            started_at: None,
            finished_at: None,
            metadata: HashMap::new(),
        }
    }

    /// Moves the session to `status` (see [`moved_to`]); the session counts
    /// as changed now.
    pub fn update_status(&mut self, status: SessionStatus)
        ensures
            moved_to(*old(self), *final(self), status),
    {
        self.status = status;
        self.updated_at = utc_now();
        match status {
            SessionStatus::Active => {
                if self.started_at.is_none() {
                    self.started_at = Some(utc_now());
                }
            },
            SessionStatus::Completed | SessionStatus::Failed | SessionStatus::Cancelled => {
                if self.finished_at.is_none() {
                    self.finished_at = Some(utc_now());
                }
            },
            _ => {},
        }
    }

    /// A copy of the session.
    pub fn duplicate(&self) -> (s: Self)
        ensures
            same_session(s, *self),
    {
        Session {
            id: self.id,
            task_id: self.task_id,
            name: self.name.clone(),
            status: self.status,
            created_at: self.created_at,
            updated_at: self.updated_at,
            started_at: self.started_at,
            finished_at: self.finished_at,
            metadata: self.metadata.clone(),
        }
    }
}

/// Message of the error for a session number that does not exist.
pub open spec fn session_not_found(id: u64) -> Seq<char> {
    "Session "@ + decimal(id as nat) + " not found"@
}

/// The sessions of a run, numbered from 1 in order of creation.
pub struct SessionManager {
    sessions: Vec<Session>,
    next_id: SessionId,
}

impl SessionManager {
    /// Sessions are numbered 1, 2, ... in order and the next number follows the last.
    pub closed spec fn wf(self) -> bool {
        &&& self.next_id.0 == self.sessions@.len() + 1
        &&& forall|i: int| 0 <= i < self.sessions@.len() ==> (#[trigger] self.sessions@[i]).id.0 == i + 1
    }

    /// The session numbered `id`, if there is one.
    pub closed spec fn session(self, id: u64) -> Option<Session> {
        if 1 <= id <= self.sessions@.len() {
            Some(self.sessions@[id - 1])
        } else {
            None
        }
    }

    /// The number the next session gets.
    pub closed spec fn next_number(self) -> u64 {
        self.next_id.0
    }

    /// How many sessions there are.
    pub closed spec fn count(self) -> nat {
        self.sessions@.len()
    }

    /// All sessions in order of their numbers.
    pub closed spec fn in_order(self) -> Seq<Session> {
        self.sessions@
    }

    /// The sessions are numbered 1 to `count()` and the next one gets the next number.
    pub proof fn lemma_numbering(self)
        requires
            self.wf(),
        ensures
            self.next_number() == self.count() + 1,
            forall|id: u64| #[trigger] self.session(id) is Some <==> 1 <= id <= self.count(),
            forall|id: u64| #[trigger] self.session(id) matches Some(s) ==> s.id.0 == id,
            self.in_order().len() == self.count(),
            forall|i: int| 0 <= i < self.count() ==> #[trigger] self.in_order()[i] == self.session((i + 1) as u64)->Some_0,
    {
    }

    /// A manager without sessions; the first session gets number 1.
    pub fn new() -> (m: Self)
        ensures
            m.wf(),
            m.count() == 0,
            m.next_number() == 1,
    {
        SessionManager { sessions: Vec::new(), next_id: SessionId(1) }
    }

    /// Adds a created session of task `task_id` under the next number and
    /// returns that number.
    pub fn create_session(&mut self, task_id: TaskId, name: String) -> (r: CoreResult<SessionId>)
        requires
            old(self).wf(),
            old(self).next_number() < u64::MAX,
        ensures
            final(self).wf(),
            r matches Ok(id) && {
                &&& id.0 == old(self).next_number()
                &&& old(self).session(id.0) is None
                &&& final(self).next_number() == old(self).next_number() + 1
                &&& final(self).count() == old(self).count() + 1
                &&& final(self).session(id.0) matches Some(s) && s.id == id && s.task_id == task_id && s.name
                    == name && s.status == SessionStatus::Created && s.created_at == s.updated_at
                    && s.started_at is None && s.finished_at is None
                    && s.metadata@ == Map::<String, serde_json::Value>::empty()
                &&& forall|k: u64| k != id.0 ==> #[trigger] final(self).session(k) == old(self).session(k)
            },
    {
        let id = self.next_id;
        let session = Session::new(id, task_id, name);
        self.sessions.push(session);
        self.next_id = SessionId(id.0 + 1);
        Ok(id)
    }

    /// A copy of the session numbered `id`, if there is one.
    pub fn get_session(&self, id: SessionId) -> (r: CoreResult<Option<Session>>)
        requires
            self.wf(),
        ensures
            r matches Ok(o) && match self.session(id.0) {
                Some(s) => o matches Some(c) && same_session(c, s),
                None => o is None,
            },
    {
        if id.0 >= 1 && id.0 <= self.sessions.len() as u64 {
            Ok(Some(self.sessions[(id.0 - 1) as usize].duplicate()))
        } else {
            Ok(None)
        }
    }

    /// Moves the session numbered `id` to `status`; an error naming the
    /// number when there is no such session.
    pub fn update_session_status(&mut self, id: SessionId, status: SessionStatus) -> (r: CoreResult<()>)
        requires
            old(self).wf(),
        ensures
            final(self).wf(),
            match old(self).session(id.0) {
                Some(s) => {
                    &&& r is Ok
                    &&& final(self).session(id.0) matches Some(u) && moved_to(s, u, status)
                    &&& forall|k: u64| k != id.0 ==> #[trigger] final(self).session(k) == old(self).session(k)
                    &&& final(self).next_number() == old(self).next_number()
                },
                None => {
                    &&& r matches Err(e) && e matches CoreError::Session { message } && message@ == session_not_found(
                        id.0,
                    )
                    &&& *final(self) == *old(self)
                },
            },
    {
        if id.0 >= 1 && id.0 <= self.sessions.len() as u64 {
            let i = (id.0 - 1) as usize;
            let mut s = self.sessions.remove(i);
            s.update_status(status);
            self.sessions.insert(i, s);
            Ok(())
        } else {
            let message = owned("Session ").concat(decimal_string(id.0).as_str()).concat(" not found");
            Err(CoreError::session(message))
        }
    }

    /// Copies of the sessions of task `task_id`, in order of their numbers.
    pub fn list_sessions_for_task(&self, task_id: TaskId) -> (r: CoreResult<Vec<Session>>)
        requires
            self.wf(),
        ensures
            r matches Ok(v) && {
                let of_task = self.in_order().filter(|s: Session| s.task_id == task_id);
                &&& v@.len() == of_task.len()
                &&& forall|i: int| 0 <= i < v@.len() ==> same_session(#[trigger] v@[i], of_task[i])
            },
    {
        let ghost pick = |s: Session| s.task_id == task_id;
        let mut out: Vec<Session> = Vec::new();
        let mut i: usize = 0;
        while i < self.sessions.len()
            invariant
                i <= self.sessions@.len(),
                pick == (|s: Session| s.task_id == task_id),
                out@.len() == self.sessions@.subrange(0, i as int).filter(pick).len(),
                forall|j: int|
                    0 <= j < out@.len() ==> same_session(
                        #[trigger] out@[j],
                        self.sessions@.subrange(0, i as int).filter(pick)[j],
                    ),
            decreases self.sessions@.len() - i,
        {
            let ghost before = self.sessions@.subrange(0, i as int);
            assert(self.sessions@.subrange(0, i + 1) =~= before.push(self.sessions@[i as int]));
            proof {
                before.lemma_filter_push(self.sessions@[i as int], pick);
            }
            if self.sessions[i].task_id == task_id {
                out.push(self.sessions[i].duplicate());
            }
            i = i + 1;
        }
        assert(self.sessions@.subrange(0, i as int) =~= self.sessions@);
        Ok(out)
    }

    /// Copies of all sessions, in order of their numbers.
    pub fn list_sessions(&self) -> (r: CoreResult<Vec<Session>>)
        requires
            self.wf(),
        ensures
            r matches Ok(v) && v@.len() == self.count() && forall|i: int|
                0 <= i < v@.len() ==> (self.session((i + 1) as u64) matches Some(s) && same_session(
                    #[trigger] v@[i],
                    s,
                )),
    {
        let mut out: Vec<Session> = Vec::new();
        let mut i: usize = 0;
        while i < self.sessions.len()
            invariant
                i <= self.sessions@.len(),
                out@.len() == i,
                forall|j: int| 0 <= j < i ==> same_session(#[trigger] out@[j], self.sessions@[j]),
            decreases self.sessions@.len() - i,
        {
            out.push(self.sessions[i].duplicate());
            i = i + 1;
        }
        Ok(out)
    }
}

impl Default for SessionManager {
    /// A manager without sessions.
    fn default() -> (m: Self)
        ensures
            m.wf(),
            m.count() == 0,
            m.next_number() == 1,
    {
        Self::new()
    }
}

/// A session moved to `Active` has a start time, and one moved to a final
/// status has a finish time.
pub proof fn law_lifecycle_times_recorded(a: Session, b: Session, status: SessionStatus)
    requires
        moved_to(a, b, status),
    ensures
        status == SessionStatus::Active ==> b.started_at is Some,
        is_final(status) ==> b.finished_at is Some,
{
}

/// Start and finish times, once recorded, survive every later change of status.
pub proof fn law_lifecycle_times_stay(a: Session, b: Session, c: Session, s1: SessionStatus, s2: SessionStatus)
    requires
        moved_to(a, b, s1),
        moved_to(b, c, s2),
    ensures
        a.started_at is Some ==> c.started_at == a.started_at,
        a.finished_at is Some ==> c.finished_at == a.finished_at,
        b.started_at is Some ==> c.started_at == b.started_at,
        b.finished_at is Some ==> c.finished_at == b.finished_at,
{
}

} // verus!
