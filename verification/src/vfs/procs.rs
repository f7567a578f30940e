//! Process registration, branch binding, event subscriptions and statistics.

use std::sync::Arc;
use vstd::prelude::*;

use crate::error::{FsError, FsResult};
use crate::seqs::{lemma_first_match_at, lemma_first_match_none};
use crate::types::{BranchId, EventSink, FsStats, SubscriptionId, User, PID};
use super::{binding_of, FsCore, ProcessBinding, ProcessRecord};

verus! {

/// Bindings after binding `pid` to branch `b`: its binding is replaced, or added.
pub open spec fn rebound(bs: Seq<ProcessBinding>, pid: u32, b: BranchId) -> Seq<ProcessBinding> {
    match crate::seqs::first_match(bs, binding_of(pid)) {
        Some(i) => bs.update(i, ProcessBinding { pid, branch: b }),
        None => bs.push(ProcessBinding { pid, branch: b }),
    }
}

/// Bindings of processes other than `pid`.
pub open spec fn not_of(pid: u32) -> spec_fn(ProcessBinding) -> bool {
    |b: ProcessBinding| b.pid != pid
}

/// Appends `sink` as a trait object (std `Vec::push`, with the unsizing
/// coercion of the `Arc`). Only where it goes is stated: Verus does not take
/// the unsizing coercion, so the appended element cannot be equated with
/// `sink` in a clause.
#[verifier::external_body]
fn push_sink<S: EventSink + 'static>(sinks: &mut Vec<Arc<dyn EventSink>>, sink: Arc<S>)
    ensures
        final(sinks)@.len() == old(sinks)@.len() + 1,
        final(sinks)@.drop_last() == old(sinks)@,
{
    sinks.push(sink);
}

impl FsCore {
    /// Registers process `pid` (child of `ppid`) acting as `uid`:`gid`. A
    /// process registered before keeps its first identity.
    pub fn register_process(&mut self, pid: u32, ppid: u32, uid: u32, gid: u32) -> (r: PID)
        requires
            old(self).wf(),
        ensures
            final(self).delivered == old(self).delivered,
            final(self).wf(),
            r.0 == pid,
            final(self).processes@ == if old(self).process_index(pid) is Some {
                old(self).processes@
            } else {
                old(self).processes@.push(ProcessRecord { pid, ppid, uid, gid })
            },
            final(self).nodes == old(self).nodes,
            final(self).storage == old(self).storage,
            final(self).handles == old(self).handles,
            final(self).branches == old(self).branches,
            final(self).snapshots == old(self).snapshots,
            final(self).process_branches == old(self).process_branches,
            final(self).config == old(self).config,
            final(self).next_handle_id == old(self).next_handle_id,
            final(self).next_snapshot_seq == old(self).next_snapshot_seq,
            final(self).next_branch_seq == old(self).next_branch_seq,
    {
        let mut i: usize = 0;
        while i < self.processes.len()
            invariant
                i <= self.processes@.len(),
                *self == *old(self),
                old(self).wf(),
                forall|j: int| 0 <= j < i ==> !super::record_of(pid)(#[trigger] self.processes@[j]),
            decreases self.processes@.len() - i,
        {
            if self.processes[i].pid == pid {
                proof {
                    lemma_first_match_at(self.processes@, super::record_of(pid), i as int);
                }
                return PID::new(pid);
            }
            i = i + 1;
        }
        proof {
            lemma_first_match_none(self.processes@, super::record_of(pid));
        }
        self.processes.push(ProcessRecord { pid, ppid, uid, gid });
        PID::new(pid)
    }

    /// Identity process `pid` registered with, if it did.
    pub fn user_for_process(&self, pid: &PID) -> (r: Option<User>)
        ensures
            r == match self.process_index(pid.0) {
                Some(i) => Some(User { uid: self.processes@[i].uid, gid: self.processes@[i].gid }),
                None => None::<User>,
            },
    {
        let mut i: usize = 0;
        while i < self.processes.len()
            invariant
                i <= self.processes@.len(),
                forall|j: int| 0 <= j < i ==> !super::record_of(pid.0)(#[trigger] self.processes@[j]),
            decreases self.processes@.len() - i,
        {
            if self.processes[i].pid == pid.0 {
                proof {
                    lemma_first_match_at(self.processes@, super::record_of(pid.0), i as int);
                }
                return Some(User { uid: self.processes[i].uid, gid: self.processes[i].gid });
            }
            i = i + 1;
        }
        proof {
            lemma_first_match_none(self.processes@, super::record_of(pid.0));
        }
        None
    }

    /// Outcome `r` of binding process `pid` to branch `b`, `self` after `old`:
    /// an unknown branch is a `NotFound` error that changes nothing; otherwise
    /// the process works in `b` from now on.
    pub open spec fn bound(self, old: FsCore, b: BranchId, pid: u32, r: FsResult<()>) -> bool {
        match old.branch_index(b.0@) {
            None => r == Err::<(), FsError>(FsError::NotFound) && self == old,
            Some(_) => {
                &&& r is Ok
                &&& self.process_branches@ == rebound(old.process_branches@, pid, b)
                &&& self.nodes == old.nodes
                &&& self.storage == old.storage
                &&& self.handles == old.handles
                &&& self.branches == old.branches
                &&& self.snapshots == old.snapshots
                &&& self.processes == old.processes
                &&& self.config == old.config
            },
        }
    }

    /// Makes process `pid` work in branch `branch_id`, which must exist.
    pub fn bind_process_to_branch_with_pid(&mut self, branch_id: BranchId, pid: u32) -> (r: FsResult<()>)
        requires
            old(self).wf(),
        ensures
            final(self).delivered == old(self).delivered,
            final(self).wf(),
            final(self).bound(*old(self), branch_id, pid, r),
    {
        if self.find_branch(&branch_id).is_none() {
            return Err(FsError::NotFound);
        }
        let mut i: usize = 0;
        while i < self.process_branches.len()
            invariant
                i <= self.process_branches@.len(),
                *self == *old(self),
                old(self).wf(),
                old(self).branch_index(branch_id.0@) is Some,
                forall|j: int| 0 <= j < i ==> !binding_of(pid)(#[trigger] self.process_branches@[j]),
            decreases self.process_branches@.len() - i,
        {
            if self.process_branches[i].pid == pid {
                proof {
                    lemma_first_match_at(self.process_branches@, binding_of(pid), i as int);
                }
                self.process_branches.set(i, ProcessBinding { pid, branch: branch_id });
                return Ok(());
            }
            i = i + 1;
        }
        proof {
            lemma_first_match_none(self.process_branches@, binding_of(pid));
        }
        self.process_branches.push(ProcessBinding { pid, branch: branch_id });
        Ok(())
    }

    /// Returns process `pid` to the default branch.
    pub fn unbind_process_with_pid(&mut self, pid: u32) -> (r: FsResult<()>)
        requires
            old(self).wf(),
        ensures
            final(self).delivered == old(self).delivered,
            final(self).wf(),
            r is Ok,
            final(self).process_branches@ == old(self).process_branches@.filter(not_of(pid)),
            *final(self) == (FsCore { process_branches: final(self).process_branches, ..*old(self) }),
    {
        let mut out: Vec<ProcessBinding> = Vec::new();
        let mut i: usize = 0;
        proof {
            reveal(Seq::filter);
            assert(self.process_branches@.subrange(0, 0) =~= Seq::<ProcessBinding>::empty());
        }
        while i < self.process_branches.len()
            invariant
                i <= self.process_branches@.len(),
                *self == *old(self),
                old(self).wf(),
                out@ == self.process_branches@.subrange(0, i as int).filter(not_of(pid)),
            decreases self.process_branches@.len() - i,
        {
            let b = self.process_branches[i];
            proof {
                assert(self.process_branches@.subrange(0, i + 1) =~= self.process_branches@.subrange(0, i as int).push(b));
                self.process_branches@.subrange(0, i as int).lemma_filter_push(b, not_of(pid));
            }
            if b.pid != pid {
                out.push(b);
            }
            i = i + 1;
        }
        assert(self.process_branches@.subrange(0, self.process_branches@.len() as int) =~= self.process_branches@);
        self.process_branches = out;
        Ok(())
    }

    /// Registers `cb` to receive events; returns its subscription id.
    pub fn subscribe_events<S: EventSink + 'static>(&mut self, cb: Arc<S>) -> (r: FsResult<SubscriptionId>)
        requires
            old(self).wf(),
        ensures
            final(self).delivered == old(self).delivered,
            final(self).wf(),
            match r {
                Ok(id) => {
                    &&& id.0 == old(self).next_subscription_id
                    &&& final(self).next_subscription_id == old(self).next_subscription_id + 1
                    &&& final(self).subscription_ids@ == old(self).subscription_ids@.push(id)
                    &&& final(self).sinks@.len() == old(self).sinks@.len() + 1
                    &&& final(self).sinks@.drop_last() == old(self).sinks@
                },
                Err(e) => e == FsError::NoSpace && old(self).next_subscription_id == u64::MAX && *final(self)
                    == *old(self),
            },
            final(self).nodes == old(self).nodes,
            final(self).storage == old(self).storage,
            final(self).handles == old(self).handles,
            final(self).branches == old(self).branches,
            final(self).snapshots == old(self).snapshots,
            final(self).config == old(self).config,
    {
        if self.next_subscription_id == u64::MAX {
            return Err(FsError::NoSpace);
        }
        let id = SubscriptionId::new(self.next_subscription_id);
        self.next_subscription_id = self.next_subscription_id + 1;
        self.subscription_ids.push(id);
        push_sink(&mut self.sinks, cb);
        Ok(id)
    }

    /// Removes subscription `subscription`; `NotFound` when there is none.
    pub fn unsubscribe_events(&mut self, subscription: SubscriptionId) -> (r: FsResult<()>)
        requires
            old(self).wf(),
        ensures
            final(self).delivered == old(self).delivered,
            final(self).wf(),
            match crate::seqs::first_match(old(self).subscription_ids@, |s: SubscriptionId| s == subscription) {
                Some(i) => {
                    &&& r is Ok
                    &&& final(self).subscription_ids@ == old(self).subscription_ids@.remove(i)
                    &&& final(self).sinks@ == old(self).sinks@.remove(i)
                },
                None => r == Err::<(), FsError>(FsError::NotFound) && *final(self) == *old(self),
            },
            final(self).nodes == old(self).nodes,
            final(self).storage == old(self).storage,
            final(self).handles == old(self).handles,
            final(self).branches == old(self).branches,
            final(self).snapshots == old(self).snapshots,
            final(self).config == old(self).config,
    {
        let mut i: usize = 0;
        while i < self.subscription_ids.len()
            invariant
                i <= self.subscription_ids@.len(),
                *self == *old(self),
                old(self).wf(),
                forall|j: int| 0 <= j < i ==> !(|s: SubscriptionId| s == subscription)(#[trigger] self.subscription_ids@[j]),
            decreases self.subscription_ids@.len() - i,
        {
            if self.subscription_ids[i] == subscription {
                proof {
                    lemma_first_match_at(self.subscription_ids@, |s: SubscriptionId| s == subscription, i as int);
                }
                let _ = self.subscription_ids.remove(i);
                let _ = self.sinks.remove(i);
                return Ok(());
            }
            i = i + 1;
        }
        proof {
            lemma_first_match_none(self.subscription_ids@, |s: SubscriptionId| s == subscription);
        }
        Err(FsError::NotFound)
    }

    /// Counts of branches, snapshots and open handles (each as `u32`, as the
    /// original counters were); byte counts are not tracked and read 0.
    pub fn stats(&self) -> (r: FsStats)
        ensures
            r.branches == self.branches@.len() as u32,
            r.snapshots == self.snapshots@.len() as u32,
            r.open_handles == self.handles@.len() as u32,
            r.bytes_in_memory == 0,
            r.bytes_spilled == 0,
    {
        FsStats {
            branches: self.branches.len() as u32,
            snapshots: self.snapshots.len() as u32,
            open_handles: self.handles.len() as u32,
            bytes_in_memory: 0,
            bytes_spilled: 0,
        }
    }
}

} // verus!
