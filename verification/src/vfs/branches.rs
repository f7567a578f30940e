//! Snapshots and branches.

use vstd::prelude::*;

use crate::error::{FsError, FsResult};
use crate::text::owned;
use crate::types::{id_from_seq, seq_id_bytes, BranchId, BranchInfo, EventKind, SnapshotId, PID};
use super::clone::clone_of;
use super::{opt_view, Branch, EventV, FsCore, Snapshot};

verus! {

/// View of an optional name.
pub open spec fn opt_str_view(o: Option<&str>) -> Option<Seq<char>> {
    match o {
        Some(s) => Some(s@),
        None => None,
    }
}

/// Owned copy of an optional name.
pub fn owned_name(o: Option<&str>) -> (r: Option<String>)
    ensures
        opt_view(r) == opt_str_view(o),
{
    match o {
        Some(s) => Some(owned(s)),
        None => None,
    }
}

/// Copy of an optional name.
fn copy_name(o: &Option<String>) -> (r: Option<String>)
    ensures
        opt_view(r) == opt_view(*o),
{
    match o {
        Some(s) => Some(s.clone()),
        None => None,
    }
}

impl FsCore {
    /// Only the branch and snapshot registries (and their counters) may differ.
    pub open spec fn same_but_registries(self, other: FsCore) -> bool {
        &&& self.nodes == other.nodes
        &&& self.storage == other.storage
        &&& self.handles == other.handles
        &&& self.next_handle_id == other.next_handle_id
        &&& self.config == other.config
        &&& self.processes == other.processes
        &&& self.process_branches == other.process_branches
        &&& self.locks == other.locks
        &&& self.subscription_ids == other.subscription_ids
        &&& self.sinks == other.sinks
        &&& self.delivered == other.delivered
    }

    /// Some branch was created from snapshot `s`.
    pub open spec fn has_dependents(self, s: SnapshotId) -> bool {
        exists|i: int|
            0 <= i < self.branches@.len() && ((#[trigger] self.branches@[i]).parent_snapshot matches Some(p) && p.0@
                == s.0@)
    }

    /// Outcome `r` of taking a snapshot named `name` for `pid`, `self` after
    /// `old`: on success the tree of the branch `pid` works in was recorded
    /// under the next snapshot id; otherwise nothing changed, the error being
    /// `NotFound` for a missing branch and `NoSpace` when snapshot ids ran out.
    pub open spec fn snapshot_taken(self, old: FsCore, pid: u32, name: Option<&str>, r: FsResult<SnapshotId>) -> bool {
        match r {
            Ok(id) => {
                &&& old.branch_index(old.branch_of(pid)) matches Some(bi)
                &&& id.0@ == seq_id_bytes(old.next_snapshot_seq)
                &&& self.snapshots@.len() == old.snapshots@.len() + 1
                &&& self.snapshots@.drop_last() == old.snapshots@
                &&& self.snapshots@.last().id == id
                &&& self.snapshots@.last().root_id == old.branches@[bi].root_id
                &&& opt_view(self.snapshots@.last().name) == opt_str_view(name)
                &&& self.next_snapshot_seq == old.next_snapshot_seq + 1
                &&& self.branches == old.branches
                &&& self.next_branch_seq == old.next_branch_seq
                &&& self.relog(old).same_but_registries(old)
                &&& self.delivered@ == old.delivered@ + old.notices(
                    EventV::SnapshotCreated { id, name: opt_str_view(name) },
                )
            },
            Err(e) => {
                &&& (old.branch_index(old.branch_of(pid)) is None && e == FsError::NotFound) || (
                old.branch_index(old.branch_of(pid)) is Some && old.next_snapshot_seq == u64::MAX
                    && e == FsError::NoSpace)
                &&& self == old
            },
        }
    }

    /// Records the tree of the branch process `pid` works in as a new
    /// snapshot (sharing its nodes) and reports it.
    pub fn snapshot_create(&mut self, pid: &PID, name: Option<&str>) -> (r: FsResult<SnapshotId>)
        requires
            old(self).wf(),
        ensures
            final(self).wf(),
            final(self).snapshot_taken(*old(self), pid.0, name, r),
    {
        let b = self.current_branch_for_process(pid.0);
        let bi = match self.find_branch(&b) {
            Some(i) => i,
            None => return Err(FsError::NotFound),
        };
        if self.next_snapshot_seq == u64::MAX {
            return Err(FsError::NoSpace);
        }
        let id = SnapshotId::new(id_from_seq(self.next_snapshot_seq));
        self.next_snapshot_seq = self.next_snapshot_seq + 1;
        let root_id = self.branches[bi].root_id;
        let ghost before = self.snapshots@;
        self.snapshots.push(Snapshot { id, root_id, name: owned_name(name) });
        assert(self.snapshots@.drop_last() =~= before);
        proof {
            assert forall|i: int, k: u64|
                0 <= i < self.snapshots@.len() && k >= self.next_snapshot_seq implies (#[trigger] self.snapshots@[i]).id.0@
                    != #[trigger] seq_id_bytes(k) by {
                if i == before.len() {
                    if id.0@ == seq_id_bytes(k) {
                        crate::types::lemma_seq_id_bytes_injective(old(self).next_snapshot_seq, k);
                    }
                } else {
                    assert(self.snapshots@[i] == before[i]);
                }
            }
        }
        self.emit_event(EventKind::SnapshotCreated { id, name: owned_name(name) });
        Ok(id)
    }

    /// Every snapshot's id and name, in creation order.
    pub fn snapshot_list(&self) -> (r: Vec<(SnapshotId, Option<String>)>)
        ensures
            r@.len() == self.snapshots@.len(),
            forall|i: int|
                0 <= i < r@.len() ==> (#[trigger] r@[i]).0 == self.snapshots@[i].id && opt_view(r@[i].1) == opt_view(
                    self.snapshots@[i].name,
                ),
    {
        let mut out: Vec<(SnapshotId, Option<String>)> = Vec::new();
        let mut i: usize = 0;
        while i < self.snapshots.len()
            invariant
                i <= self.snapshots@.len(),
                out@.len() == i,
                forall|k: int|
                    0 <= k < i ==> (#[trigger] out@[k]).0 == self.snapshots@[k].id && opt_view(out@[k].1) == opt_view(
                        self.snapshots@[k].name,
                    ),
            decreases self.snapshots@.len() - i,
        {
            out.push((self.snapshots[i].id, copy_name(&self.snapshots[i].name)));
            i = i + 1;
        }
        out
    }

    /// Deletes snapshot `snapshot_id`; refused with `Busy` while a branch
    /// created from it exists. Deleting an unknown snapshot succeeds.
    pub fn snapshot_delete(&mut self, snapshot_id: SnapshotId) -> (r: FsResult<()>)
        requires
            old(self).wf(),
        ensures
            final(self).delivered == old(self).delivered,
            final(self).wf(),
            if old(self).has_dependents(snapshot_id) {
                r == Err::<(), FsError>(FsError::Busy) && *final(self) == *old(self)
            } else {
                &&& r is Ok
                &&& final(self).snapshots@ == match old(self).snapshot_index(snapshot_id) {
                    Some(i) => old(self).snapshots@.remove(i),
                    None => old(self).snapshots@,
                }
                &&& final(self).branches == old(self).branches
                &&& final(self).next_snapshot_seq == old(self).next_snapshot_seq
                &&& final(self).next_branch_seq == old(self).next_branch_seq
                &&& final(self).same_but_registries(*old(self))
            },
    {
        let mut i: usize = 0;
        while i < self.branches.len()
            invariant
                i <= self.branches@.len(),
                *self == *old(self),
                old(self).wf(),
                forall|k: int|
                    0 <= k < i ==> !((#[trigger] self.branches@[k]).parent_snapshot matches Some(p) && p.0@
                        == snapshot_id.0@),
            decreases self.branches@.len() - i,
        {
            match self.branches[i].parent_snapshot {
                Some(p) => {
                    if p == snapshot_id {
                        return Err(FsError::Busy);
                    }
                },
                None => {},
            }
            i = i + 1;
        }
        let mut j: usize = 0;
        while j < self.snapshots.len()
            invariant
                j <= self.snapshots@.len(),
                *self == *old(self),
                old(self).wf(),
                !old(self).has_dependents(snapshot_id),
                forall|k: int| 0 <= k < j ==> !super::snapshot_with(snapshot_id.0@)(#[trigger] self.snapshots@[k]),
            decreases self.snapshots@.len() - j,
        {
            if self.snapshots[j].id == snapshot_id {
                proof {
                    crate::seqs::lemma_first_match_at(self.snapshots@, super::snapshot_with(snapshot_id.0@), j as int);
                }
                let _ = self.snapshots.remove(j);
                return Ok(());
            }
            j = j + 1;
        }
        proof {
            crate::seqs::lemma_first_match_none(self.snapshots@, super::snapshot_with(snapshot_id.0@));
        }
        Ok(())
    }

    /// Position of the snapshot with id `s`.
    pub fn find_snapshot(&self, s: &SnapshotId) -> (r: Option<usize>)
        ensures
            match r {
                Some(i) => self.snapshot_index(*s) == Some(i as int) && i < self.snapshots@.len(),
                None => self.snapshot_index(*s) is None,
            },
    {
        let mut i: usize = 0;
        while i < self.snapshots.len()
            invariant
                i <= self.snapshots@.len(),
                forall|j: int| 0 <= j < i ==> !super::snapshot_with(s.0@)(#[trigger] self.snapshots@[j]),
            decreases self.snapshots@.len() - i,
        {
            if self.snapshots[i].id == *s {
                proof {
                    crate::seqs::lemma_first_match_at(self.snapshots@, super::snapshot_with(s.0@), i as int);
                }
                return Some(i);
            }
            i = i + 1;
        }
        proof {
            crate::seqs::lemma_first_match_none(self.snapshots@, super::snapshot_with(s.0@));
        }
        None
    }

    /// Clones the tree rooted at `root` for a new branch.
    fn clone_tree(&mut self, root: u64) -> (r: FsResult<u64>)
        requires
            old(self).wf(),
        ensures
            final(self).wf(),
            final(self).same_bookkeeping(*old(self)),
            final(self).keeps(*old(self), old(self).next_node_id()),
            match r {
                Ok(dst) => clone_of(
                    *final(self),
                    *old(self),
                    root,
                    dst,
                    old(self).next_node_id(),
                    old(self).storage.next_id as int,
                    old(self).nodes@.len() as nat,
                ),
                Err(e) => e == FsError::NotFound || e == FsError::NoSpace || e == FsError::InvalidArgument,
            },
    {
        let len = self.nodes.len() as u64;
        if len >= u64::MAX - 1 {
            assert(self.keeps(*old(self), old(self).next_node_id()));
            return Err(FsError::NoSpace);
        }
        assert(self.keeps(*old(self), (len + 1) as int));
        self.clone_node_cow_recursive(root, len + 1, len, Ghost(*old(self)))
    }

    /// Outcome `r` of starting a branch named `name` from snapshot `s`,
    /// `self` after `old`: the snapshot's tree is copied (nodes from
    /// `old.next_node_id()` on) into the root of a new branch with the next
    /// branch id; an unknown snapshot is a `NotFound` error that changes
    /// nothing, and no existing node or snapshot changes either way.
    pub open spec fn branched(self, old: FsCore, s: SnapshotId, name: Option<&str>, r: FsResult<BranchId>) -> bool {
        &&& self.keeps(old, old.next_node_id())
        &&& self.snapshots == old.snapshots
        &&& self.next_snapshot_seq == old.next_snapshot_seq
        &&& self.relog(old).same_bookkeeping_but_branches(old)
        &&& match r {
            Ok(id) => {
                &&& old.snapshot_index(s) matches Some(si)
                &&& id.0@ == seq_id_bytes(old.next_branch_seq)
                &&& self.next_branch_seq == old.next_branch_seq + 1
                &&& self.branches@.len() == old.branches@.len() + 1
                &&& self.branches@.drop_last() == old.branches@
                &&& self.branches@.last().id == id
                &&& self.branches@.last().parent_snapshot == Some(s)
                &&& self.delivered@ == old.delivered@ + old.notices(
                    EventV::BranchCreated { id, name: opt_str_view(name) },
                )
                &&& opt_view(self.branches@.last().name) == opt_str_view(name)
                &&& clone_of(
                    self,
                    old,
                    old.snapshots@[si].root_id,
                    self.branches@.last().root_id,
                    old.next_node_id(),
                    old.storage.next_id as int,
                    old.nodes@.len() as nat,
                )
            },
            Err(e) => {
                &&& self.delivered == old.delivered
                &&& self.branches == old.branches
                &&& self.next_branch_seq == old.next_branch_seq
                &&& old.snapshot_index(s) is None ==> e == FsError::NotFound && self == old
            },
        }
    }

    /// Creates a branch whose tree is a deep copy of snapshot `snapshot_id`'s
    /// and reports it. On failure no branch is added; fresh unreferenced
    /// nodes or contents may remain, and nothing that existed changes.
    pub fn branch_create_from_snapshot(&mut self, snapshot_id: SnapshotId, name: Option<&str>) -> (r: FsResult<BranchId>)
        requires
            old(self).wf(),
        ensures
            final(self).wf(),
            final(self).branched(*old(self), snapshot_id, name, r),
    {
        let found = self.find_snapshot(&snapshot_id);
        let si = match found {
            Some(i) => i,
            None => {
                assert(self.keeps(*old(self), old(self).next_node_id()));
                return Err(FsError::NotFound);
            },
        };
        if self.next_branch_seq == u64::MAX {
            assert(self.keeps(*old(self), old(self).next_node_id()));
            return Err(FsError::NoSpace);
        }
        let root = self.snapshots[si].root_id;
        let new_root = match self.clone_tree(root) {
            Ok(r) => r,
            Err(e) => return Err(e),
        };
        assert(self.snapshots == old(self).snapshots);
        let ghost s1 = *self;
        let id = BranchId::new(id_from_seq(self.next_branch_seq));
        self.next_branch_seq = self.next_branch_seq + 1;
        let ghost before = self.branches@;
        self.branches.push(Branch { id, root_id: new_root, parent_snapshot: Some(snapshot_id), name: owned_name(name) });
        assert(self.branches@.drop_last() =~= before);
        proof {
            assert forall|i: int, k: u64|
                0 <= i < self.branches@.len() && k >= self.next_branch_seq implies (#[trigger] self.branches@[i]).id.0@
                    != #[trigger] seq_id_bytes(k) by {
                if i == before.len() {
                    if id.0@ == seq_id_bytes(k) {
                        crate::types::lemma_seq_id_bytes_injective(old(self).next_branch_seq, k);
                    }
                } else {
                    assert(self.branches@[i] == before[i]);
                }
            }
        }
        proof {
            super::clone::lemma_clone_frame(
                s1,
                *self,
                *old(self),
                root,
                new_root,
                old(self).next_node_id(),
                old(self).storage.next_id as int,
                old(self).nodes@.len() as nat,
            );
        }
        proof {
            (*self).lemma_keeps_same_arena(s1, *old(self), old(self).next_node_id());
        }
        let ghost mid = *self;
        self.emit_event(EventKind::BranchCreated { id, name: owned_name(name) });
        proof {
            assert(self.relog(*old(self)) == mid);
            super::clone::lemma_clone_frame(
                mid,
                *self,
                *old(self),
                root,
                new_root,
                old(self).next_node_id(),
                old(self).storage.next_id as int,
                old(self).nodes@.len() as nat,
            );
            (*self).lemma_keeps_same_arena(mid, *old(self), old(self).next_node_id());
        }
        Ok(id)
    }

    /// Creates a branch whose tree is a deep copy of the tree process `pid`
    /// works in. On failure no branch is added; fresh unreferenced nodes or
    /// contents may remain, and nothing that existed changes.
    pub fn branch_create_from_current(&mut self, pid: &PID, name: Option<&str>) -> (r: FsResult<BranchId>)
        requires
            old(self).wf(),
        ensures
            final(self).delivered == old(self).delivered,
            final(self).wf(),
            final(self).keeps(*old(self), old(self).next_node_id()),
            final(self).snapshots == old(self).snapshots,
            final(self).next_snapshot_seq == old(self).next_snapshot_seq,
            final(self).same_bookkeeping_but_branches(*old(self)),
            match r {
                Ok(id) => {
                    &&& old(self).branch_index(old(self).branch_of(pid.0)) matches Some(bi)
                    &&& id.0@ == seq_id_bytes(old(self).next_branch_seq)
                    &&& final(self).next_branch_seq == old(self).next_branch_seq + 1
                    &&& final(self).branches@.len() == old(self).branches@.len() + 1
                    &&& final(self).branches@.drop_last() == old(self).branches@
                    &&& final(self).branches@.last().id == id
                    &&& final(self).branches@.last().parent_snapshot is None
                    &&& opt_view(final(self).branches@.last().name) == opt_str_view(name)
                    &&& clone_of(
                        *final(self),
                        *old(self),
                        old(self).branches@[bi].root_id,
                        final(self).branches@.last().root_id,
                        old(self).next_node_id(),
                        old(self).storage.next_id as int,
                        old(self).nodes@.len() as nat,
                    )
                },
                Err(e) => {
                    &&& final(self).branches == old(self).branches
                    &&& final(self).next_branch_seq == old(self).next_branch_seq
                    &&& old(self).branch_index(old(self).branch_of(pid.0)) is None ==> e == FsError::NotFound
                        && *final(self) == *old(self)
                },
            },
    {
        let b = self.current_branch_for_process(pid.0);
        let bi = match self.find_branch(&b) {
            Some(i) => i,
            None => {
                assert(self.keeps(*old(self), old(self).next_node_id()));
                return Err(FsError::NotFound);
            },
        };
        if self.next_branch_seq == u64::MAX {
            assert(self.keeps(*old(self), old(self).next_node_id()));
            return Err(FsError::NoSpace);
        }
        let root = self.branches[bi].root_id;
        let new_root = match self.clone_tree(root) {
            Ok(r) => r,
            Err(e) => return Err(e),
        };
        assert(self.snapshots == old(self).snapshots);
        let ghost s1 = *self;
        let id = BranchId::new(id_from_seq(self.next_branch_seq));
        self.next_branch_seq = self.next_branch_seq + 1;
        let ghost before = self.branches@;
        self.branches.push(Branch { id, root_id: new_root, parent_snapshot: None, name: owned_name(name) });
        assert(self.branches@.drop_last() =~= before);
        proof {
            assert forall|i: int, k: u64|
                0 <= i < self.branches@.len() && k >= self.next_branch_seq implies (#[trigger] self.branches@[i]).id.0@
                    != #[trigger] seq_id_bytes(k) by {
                if i == before.len() {
                    if id.0@ == seq_id_bytes(k) {
                        crate::types::lemma_seq_id_bytes_injective(old(self).next_branch_seq, k);
                    }
                } else {
                    assert(self.branches@[i] == before[i]);
                }
            }
        }
        proof {
            super::clone::lemma_clone_frame(
                s1,
                *self,
                *old(self),
                root,
                new_root,
                old(self).next_node_id(),
                old(self).storage.next_id as int,
                old(self).nodes@.len() as nat,
            );
            (*self).lemma_keeps_same_arena(s1, *old(self), old(self).next_node_id());
        }
        Ok(id)
    }

    /// Every branch's id, parent snapshot and name, in creation order.
    pub fn branch_list(&self) -> (r: Vec<BranchInfo>)
        ensures
            r@.len() == self.branches@.len(),
            forall|i: int|
                0 <= i < r@.len() ==> {
                    &&& (#[trigger] r@[i]).id == self.branches@[i].id
                    &&& r@[i].parent == self.branches@[i].parent_snapshot
                    &&& opt_view(r@[i].name) == opt_view(self.branches@[i].name)
                },
    {
        let mut out: Vec<BranchInfo> = Vec::new();
        let mut i: usize = 0;
        while i < self.branches.len()
            invariant
                i <= self.branches@.len(),
                out@.len() == i,
                forall|k: int|
                    0 <= k < i ==> {
                        &&& (#[trigger] out@[k]).id == self.branches@[k].id
                        &&& out@[k].parent == self.branches@[k].parent_snapshot
                        &&& opt_view(out@[k].name) == opt_view(self.branches@[k].name)
                    },
            decreases self.branches@.len() - i,
        {
            let b = &self.branches[i];
            out.push(BranchInfo { id: b.id, parent: b.parent_snapshot, name: copy_name(&b.name) });
            i = i + 1;
        }
        out
    }
}

} // verus!
