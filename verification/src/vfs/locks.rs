//! POSIX byte-range locks, and closing handles.

use vstd::prelude::*;

use crate::error::{FsError, FsResult};
use crate::types::{HandleId, LockKind, LockRange, PID};
use super::{ActiveLock, FsCore};

verus! {

/// Two ranges share at least one byte.
pub open spec fn overlap(r1: LockRange, r2: LockRange) -> bool {
    r1.offset < r2.offset + r2.len && r2.offset < r1.offset + r1.len
}

/// An existing lock `l` forbids taking `new` on `node`: it is on the same node,
/// overlaps, and one of the two is exclusive. This holds whether or not `l`
/// was taken through the same handle.
pub open spec fn lock_blocks(l: ActiveLock, node: u64, new: LockRange) -> bool {
    &&& l.node_id == node
    &&& overlap(l.range, new)
    &&& (l.range.kind == LockKind::Exclusive || new.kind == LockKind::Exclusive)
}

/// Locks kept when handle `h` on `node` releases `range`.
pub open spec fn kept_after_unlock(node: u64, h: HandleId, range: LockRange) -> spec_fn(ActiveLock) -> bool {
    |l: ActiveLock| !(l.node_id == node && l.handle_id == h && l.range == range)
}

/// Locks kept when handle `h` on `node` is closed.
pub open spec fn kept_after_close(node: u64, h: HandleId) -> spec_fn(ActiveLock) -> bool {
    |l: ActiveLock| !(l.node_id == node && l.handle_id == h)
}

/// Whether the ranges `r1` and `r2` overlap.
pub fn ranges_overlap(r1: &LockRange, r2: &LockRange) -> (r: bool)
    ensures
        r == overlap(*r1, *r2),
{
    (r1.offset as u128) < (r2.offset as u128) + (r2.len as u128) && (r2.offset as u128) < (r1.offset as u128)
        + (r1.len as u128)
}

/// Keeps the elements of `v` satisfying `keep`, in order.
fn retain_locks(v: &Vec<ActiveLock>, node: u64, h: HandleId, range: Option<LockRange>) -> (r: Vec<ActiveLock>)
    ensures
        r@ == match range {
            Some(rg) => v@.filter(kept_after_unlock(node, h, rg)),
            None => v@.filter(kept_after_close(node, h)),
        },
{
    let ghost p = match range {
        Some(rg) => kept_after_unlock(node, h, rg),
        None => kept_after_close(node, h),
    };
    let mut out: Vec<ActiveLock> = Vec::new();
    let mut i: usize = 0;
    proof {
        assert(v@.subrange(0, 0) =~= Seq::<ActiveLock>::empty());
        reveal(Seq::filter);
    }
    while i < v.len()
        invariant
            i <= v@.len(),
            p == (match range {
                Some(rg) => kept_after_unlock(node, h, rg),
                None => kept_after_close(node, h),
            }),
            out@ == v@.subrange(0, i as int).filter(p),
        decreases v@.len() - i,
    {
        let l = v[i];
        let drop = l.node_id == node && l.handle_id == h && match range {
            Some(rg) => l.range == rg,
            None => true,
        };
        proof {
            assert(v@.subrange(0, i + 1) =~= v@.subrange(0, i as int).push(l));
            v@.subrange(0, i as int).lemma_filter_push(l, p);
            assert(p(l) == !drop);
        }
        if !drop {
            out.push(l);
        }
        i = i + 1;
    }
    assert(v@.subrange(0, v@.len() as int) =~= v@);
    out
}

impl FsCore {
    /// Some lock held on `node` forbids taking `range`.
    pub open spec fn lock_conflict(self, node: u64, range: LockRange) -> bool {
        exists|i: int| 0 <= i < self.locks@.len() && lock_blocks(#[trigger] self.locks@[i], node, range)
    }

    /// Node of the open handle `h`.
    pub open spec fn handle_node(self, h: HandleId) -> Option<u64> {
        match self.handle_index(h) {
            Some(i) => Some(self.handles@[i].node_id),
            None => None,
        }
    }

    /// Whether taking `range` on `node` conflicts with a lock already held.
    pub fn lock_conflicts(&self, node: u64, range: &LockRange) -> (r: bool)
        ensures
            r == self.lock_conflict(node, *range),
    {
        let mut i: usize = 0;
        while i < self.locks.len()
            invariant
                i <= self.locks@.len(),
                forall|j: int| 0 <= j < i ==> !lock_blocks(#[trigger] self.locks@[j], node, *range),
            decreases self.locks@.len() - i,
        {
            let l = &self.locks[i];
            if l.node_id == node && ranges_overlap(&l.range, range) && (l.range.kind == LockKind::Exclusive
                || range.kind == LockKind::Exclusive) {
                assert(lock_blocks(self.locks@[i as int], node, *range));
                return true;
            }
            i = i + 1;
        }
        false
    }

    /// Takes the byte-range lock `range` through handle `handle_id`; refused
    /// with `Busy` when an overlapping lock (from any handle, this one
    /// included) is exclusive or `range` is.
    pub fn lock(&mut self, handle_id: HandleId, range: LockRange) -> (r: FsResult<()>)
        requires
            old(self).wf(),
        ensures
            final(self).delivered == old(self).delivered,
            final(self).wf(),
            match old(self).handle_node(handle_id) {
                None => r == Err::<(), FsError>(FsError::InvalidArgument) && *final(self) == *old(self),
                Some(node) => if old(self).lock_conflict(node, range) {
                    r == Err::<(), FsError>(FsError::Busy) && *final(self) == *old(self)
                } else {
                    &&& r is Ok
                    &&& final(self).locks@ == old(self).locks@.push(
                        ActiveLock { node_id: node, handle_id, range },
                    )
                    &&& final(self).nodes == old(self).nodes
                    &&& final(self).storage == old(self).storage
                    &&& final(self).handles == old(self).handles
                },
            },
    {
        let i = match self.find_handle(handle_id) {
            Some(i) => i,
            None => return Err(FsError::InvalidArgument),
        };
        let node = self.handles[i].node_id;
        if self.lock_conflicts(node, &range) {
            return Err(FsError::Busy);
        }
        self.locks.push(ActiveLock { node_id: node, handle_id, range });
        Ok(())
    }

    /// Releases the locks of handle `handle_id` whose range, offset, length
    /// and kind, equal `range`; succeeds when there are none.
    pub fn unlock(&mut self, handle_id: HandleId, range: LockRange) -> (r: FsResult<()>)
        requires
            old(self).wf(),
        ensures
            final(self).delivered == old(self).delivered,
            final(self).wf(),
            match old(self).handle_node(handle_id) {
                None => r == Err::<(), FsError>(FsError::InvalidArgument) && *final(self) == *old(self),
                Some(node) => {
                    &&& r is Ok
                    &&& final(self).locks@ == old(self).locks@.filter(kept_after_unlock(node, handle_id, range))
                    &&& *final(self) == (FsCore { locks: final(self).locks, ..*old(self) })
                },
            },
    {
        let i = match self.find_handle(handle_id) {
            Some(i) => i,
            None => return Err(FsError::InvalidArgument),
        };
        let node = self.handles[i].node_id;
        self.locks = retain_locks(&self.locks, node, handle_id, Some(range));
        Ok(())
    }

    /// No open handle refers to `node`.
    pub open spec fn unreferenced(self, node: u64) -> bool {
        forall|j: int| 0 <= j < self.handles@.len() ==> (#[trigger] self.handles@[j]).node_id != node
    }

    /// Outcome `r` of closing `h`, `self` after `old`: an unknown handle is an
    /// `InvalidArgument` error that changes nothing; otherwise the handle and
    /// its locks are gone, and a node unlinked while open is removed once no
    /// handle refers to it.
    pub open spec fn closed(self, old: FsCore, h: HandleId, r: FsResult<()>) -> bool {
        match old.handle_index(h) {
            None => r == Err::<(), FsError>(FsError::InvalidArgument) && self == old,
            Some(i) => {
                let hd = old.handles@[i];
                &&& r is Ok
                &&& self.handles@ == old.handles@.remove(i)
                &&& self.locks@ == old.locks@.filter(kept_after_close(hd.node_id, h))
                &&& self.storage == old.storage
                &&& self.nodes@.len() == old.nodes@.len()
                &&& if hd.deleted && self.unreferenced(hd.node_id) {
                    &&& self.node(hd.node_id) is None
                    &&& forall|k: u64| k != hd.node_id ==> self.node(k) == old.node(k)
                } else {
                    self.nodes == old.nodes
                }
                &&& self.next_handle_id == old.next_handle_id
                &&& self.branches == old.branches
                &&& self.snapshots == old.snapshots
                &&& self.processes == old.processes
                &&& self.process_branches == old.process_branches
                &&& self.config == old.config
            },
        }
    }

    /// Closes handle `handle_id`, releasing its locks. A node unlinked while
    /// open is removed when its last handle closes.
    pub fn close(&mut self, pid: &PID, handle_id: HandleId) -> (r: FsResult<()>)
        requires
            old(self).wf(),
        ensures
            final(self).delivered == old(self).delivered,
            final(self).wf(),
            final(self).closed(*old(self), handle_id, r),
    {
        let i = match self.find_handle(handle_id) {
            Some(i) => i,
            None => return Err(FsError::InvalidArgument),
        };
        let node = self.handles[i].node_id;
        let was_deleted = self.handles[i].deleted;
        let _ = self.handles.remove(i);
        self.locks = retain_locks(&self.locks, node, handle_id, None);
        if was_deleted {
            let mut j: usize = 0;
            let mut referenced = false;
            while j < self.handles.len()
                invariant
                    j <= self.handles@.len(),
                    !referenced ==> forall|k: int| 0 <= k < j ==> (#[trigger] self.handles@[k]).node_id != node,
                    referenced ==> !self.unreferenced(node),
                decreases self.handles@.len() - j,
            {
                if self.handles[j].node_id == node {
                    referenced = true;
                }
                j = j + 1;
            }
            if !referenced {
                self.remove_node(node);
            }
        }
        Ok(())
    }
}

} // verus!
