//! Removing and moving directory entries: unlink, rmdir, rename.

use vstd::prelude::*;

use crate::clock::current_timestamp;
use crate::error::{FsError, FsResult};
use crate::path::{file_name, parent_names, path_names, path_parts, strings_view};
use crate::text::owned;
use crate::types::{EventKind, FileTimes, PID, User};
use super::arena::contents_present;
use super::resolve::{find_child_index, names_view};
use super::{child_index, find_child, EventV, FsCore, Handle, KindV, Node, NodeKind, NodeV};

verus! {

/// Directory `n` without its first entry named `name` (other nodes unchanged).
pub open spec fn removed_child(n: Option<NodeV>, name: Seq<char>) -> Option<NodeV> {
    match n {
        Some(d) => match d.kind {
            KindV::Dir { children } => Some(NodeV {
                kind: KindV::Dir {
                    children: match child_index(children, name) {
                        Some(i) => children.remove(i),
                        None => children,
                    },
                },
                ..d
            }),
            _ => n,
        },
        None => None,
    }
}

/// Directory `n` with the entry `name -> child` appended (other nodes unchanged).
pub open spec fn added_child(n: Option<NodeV>, name: Seq<char>, child: u64) -> Option<NodeV> {
    match n {
        Some(d) => match d.kind {
            KindV::Dir { children } => Some(NodeV { kind: KindV::Dir { children: children.push((name, child)) }, ..d }),
            _ => n,
        },
        None => None,
    }
}

/// Node `n` with change time `t`; when `dirs_only`, only a directory changes.
pub open spec fn with_ctime(n: Option<NodeV>, t: i64, dirs_only: bool) -> Option<NodeV> {
    match n {
        Some(d) => if dirs_only && !(d.kind is Dir) {
            n
        } else {
            Some(NodeV { times: FileTimes { ctime: t, ..d.times }, ..d })
        },
        None => None,
    }
}

/// Handles with those on `node` marked deleted.
pub open spec fn marked_deleted(hs: Seq<Handle>, node: u64) -> Seq<Handle> {
    hs.map_values(|h: Handle| Handle { deleted: h.deleted || h.node_id == node, ..h })
}

impl FsCore {
    /// `user` may remove `child` from directory `parent`: it needs write and
    /// search permission on `parent`, and the sticky bit must allow it.
    pub open spec fn removal_ok(self, user: User, parent: u64, child: NodeV) -> bool {
        match self.node(parent) {
            Some(p) => self.access_ok(user, p, false, true, true) && self.sticky_ok(user, p, child),
            None => true,
        }
    }

    /// Entry removed by `unlink` (`dirs == false`) or `rmdir` (`dirs == true`)
    /// at `p`: the node, its directory and its name.
    pub open spec fn removal_target(self, pid: u32, p: Seq<char>, dirs: bool) -> Result<(u64, u64, Seq<char>), FsError> {
        match self.resolve(pid, path_names(p)) {
            Err(e) => Err(e),
            Ok((_, None)) => Err(FsError::InvalidArgument),
            Ok((id, Some((parent, name)))) => match self.node(id) {
                None => Err(FsError::NotFound),
                Some(n) => {
                    if !dirs && n.kind is Dir {
                        Err(FsError::IsADirectory)
                    } else if dirs && !(n.kind is Dir) {
                        Err(FsError::NotADirectory)
                    } else if dirs && n.kind->Dir_children.len() > 0 {
                        Err(FsError::Busy)
                    } else if !self.removal_ok(self.user_of(pid), parent, n) {
                        Err(FsError::AccessDenied)
                    } else {
                        Ok((id, parent, name))
                    }
                },
            },
        }
    }

    /// Computes [`removal_ok`](Self::removal_ok).
    fn check_removal(&self, user: User, parent: u64, child: &Node) -> (ok: bool)
        ensures
            ok == self.removal_ok(user, parent, child@),
    {
        match self.get_node(parent) {
            Some(p) => self.check_access(user, p, false, true, true) && self.check_sticky(user, p, child),
            None => true,
        }
    }

    /// Computes [`removal_target`](Self::removal_target).
    fn removal_target_exec(&self, pid: u32, path: &str, dirs: bool) -> (r: Result<(u64, u64, String), FsError>)
        ensures
            match (r, self.removal_target(pid, path@, dirs)) {
                (Ok((a, b, n)), Ok((a2, b2, n2))) => a == a2 && b == b2 && n@ == n2,
                (Err(e), Err(e2)) => e == e2,
                _ => false,
            },
    {
        let parts = path_parts(path);
        assert(names_view(parts.names@) == path_names(path@));
        let (id, parent_info) = match self.resolve_path(pid, &parts.names) {
            Ok(x) => x,
            Err(e) => return Err(e),
        };
        let (parent, name) = match parent_info {
            Some(x) => x,
            None => return Err(FsError::InvalidArgument),
        };
        let n = match self.get_node(id) {
            Some(n) => n,
            None => return Err(FsError::NotFound),
        };
        match &n.kind {
            NodeKind::Directory { children } => {
                if !dirs {
                    return Err(FsError::IsADirectory);
                }
                if children.len() > 0 {
                    return Err(FsError::Busy);
                }
            },
            _ => {
                if dirs {
                    return Err(FsError::NotADirectory);
                }
            },
        }
        let user = self.user_for(pid);
        if !self.check_removal(user, parent, n) {
            return Err(FsError::AccessDenied);
        }
        Ok((id, parent, name))
    }

    /// Whether an open handle refers to `node`.
    pub fn is_referenced(&self, node: u64) -> (r: bool)
        ensures
            r == !self.unreferenced(node),
    {
        let mut j: usize = 0;
        while j < self.handles.len()
            invariant
                j <= self.handles@.len(),
                forall|k: int| 0 <= k < j ==> (#[trigger] self.handles@[k]).node_id != node,
            decreases self.handles@.len() - j,
        {
            if self.handles[j].node_id == node {
                return true;
            }
            j = j + 1;
        }
        false
    }

    /// Marks every handle on `node` deleted.
    fn mark_deleted(&mut self, node: u64)
        requires
            old(self).wf(),
        ensures
            final(self).wf(),
            final(self).handles@ == marked_deleted(old(self).handles@, node),
            final(self).nodes == old(self).nodes,
            final(self).storage == old(self).storage,
            final(self).next_handle_id == old(self).next_handle_id,
            final(self).same_registry(*old(self)),
    {
        let ghost target = marked_deleted(old(self).handles@, node);
        let mut j: usize = 0;
        while j < self.handles.len()
            invariant
                j <= self.handles@.len(),
                self.handles@.len() == old(self).handles@.len(),
                target == marked_deleted(old(self).handles@, node),
                forall|k: int| 0 <= k < j ==> self.handles@[k] == target[k],
                forall|k: int| j <= k < self.handles@.len() ==> self.handles@[k] == old(self).handles@[k],
                self.nodes == old(self).nodes,
                self.storage == old(self).storage,
                self.next_handle_id == old(self).next_handle_id,
                self.same_registry(*old(self)),
                self.wf(),
            decreases self.handles@.len() - j,
        {
            let h = self.handles.remove(j);
            let deleted = h.deleted || h.node_id == node;
            let Handle { id, node_id, position, options, .. } = h;
            self.handles.insert(j, Handle { id, node_id, position, options, deleted });
            j = j + 1;
        }
        assert(self.handles@ =~= target);
    }

    /// Outcome `r` of unlinking `p` for `pid`, `self` after `old`: when
    /// [`removal_target`](Self::removal_target) names an entry, it leaves its
    /// directory, open handles on its node are marked deleted, and the node
    /// goes at once when no handle refers to it; otherwise nothing changed and
    /// the error is the target's.
    pub open spec fn unlinked(self, old: FsCore, pid: u32, p: Seq<char>, r: FsResult<()>) -> bool {
        match old.removal_target(pid, p, false) {
            Ok((id, parent, name)) => {
                let gone = old.unreferenced(id);
                &&& r is Ok
                &&& self.handles@ == marked_deleted(old.handles@, id)
                &&& forall|k: u64| k != parent ==> self.node(k) == (if k == id && gone {
                    None
                } else {
                    old.node(k)
                })
                &&& self.node(parent) == removed_child(
                    if parent == id && gone {
                        None
                    } else {
                        old.node(parent)
                    },
                    name,
                )
                &&& self.nodes@.len() == old.nodes@.len()
                &&& self.storage == old.storage
                &&& self.next_handle_id == old.next_handle_id
                &&& self.relog(old).same_registry(old)
                &&& self.delivered@ == old.delivered@ + old.notices(EventV::Removed { path: p })
            },
            Err(e) => r == Err::<(), FsError>(e) && self == old,
        }
    }

    /// Removes the file or symlink at `path`. A node still open stays until
    /// its last handle closes (its handles are marked deleted); otherwise it
    /// is removed at once. Reports the removal.
    pub fn unlink(&mut self, pid: &PID, path: &str) -> (r: FsResult<()>)
        requires
            old(self).wf(),
        ensures
            final(self).wf(),
            final(self).unlinked(*old(self), pid.0, path@, r),
    {
        let (id, parent, name) = match self.removal_target_exec(pid.0, path, false) {
            Ok(x) => x,
            Err(e) => return Err(e),
        };
        let ghost gone = old(self).unreferenced(id);
        if self.is_referenced(id) {
            self.mark_deleted(id);
        } else {
            self.remove_node(id);
        }
        assert(self.handles@ =~= marked_deleted(old(self).handles@, id));
        let ghost s1 = *self;
        assert(forall|k: u64| #[trigger] s1.node(k) == (if k == id && gone { None } else { old(self).node(k) }));
        self.dir_remove_child(parent, &name);
        let ghost mid = *self;
        self.emit_event(EventKind::Removed { path: owned(path) });
        assert(self.relog(*old(self)) == mid);
        assert(self.nodes == mid.nodes);
        assert(forall|k: u64| #[trigger] self.node(k) == mid.node(k));
        Ok(())
    }

    /// Outcome `r` of removing directory `p` for `pid`, `self` after `old`:
    /// when [`removal_target`](Self::removal_target) names an empty
    /// directory, it leaves its parent and is gone; otherwise nothing changed
    /// and the error is the target's.
    pub open spec fn removed_dir(self, old: FsCore, pid: u32, p: Seq<char>, r: FsResult<()>) -> bool {
        match old.removal_target(pid, p, true) {
            Ok((id, parent, name)) => {
                &&& r is Ok
                &&& forall|k: u64| k != parent ==> self.node(k) == (if k == id {
                    None
                } else {
                    old.node(k)
                })
                &&& self.node(parent) == removed_child(
                    if parent == id {
                        None
                    } else {
                        old.node(parent)
                    },
                    name,
                )
                &&& self.nodes@.len() == old.nodes@.len()
                &&& self.storage == old.storage
                &&& self.relog(old).same_bookkeeping(old)
                &&& self.delivered@ == old.delivered@ + old.notices(EventV::Removed { path: p })
            },
            Err(e) => r == Err::<(), FsError>(e) && self == old,
        }
    }

    /// Removes the empty directory at `path` and reports it.
    pub fn rmdir(&mut self, pid: &PID, path: &str) -> (r: FsResult<()>)
        requires
            old(self).wf(),
        ensures
            final(self).wf(),
            final(self).removed_dir(*old(self), pid.0, path@, r),
    {
        let (id, parent, name) = match self.removal_target_exec(pid.0, path, true) {
            Ok(x) => x,
            Err(e) => return Err(e),
        };
        self.remove_node(id);
        let ghost s1 = *self;
        assert(forall|k: u64| #[trigger] s1.node(k) == (if k == id { None } else { old(self).node(k) }));
        self.dir_remove_child(parent, &name);
        let ghost mid = *self;
        self.emit_event(EventKind::Removed { path: owned(path) });
        assert(self.relog(*old(self)) == mid);
        Ok(())
    }

    /// What `rename` moves: the node at `old_p` with its directory and name,
    /// and the directory and name it goes to. The destination directory must
    /// exist without that name; the user needs removal rights on the source
    /// directory and write and search permission on the destination.
    pub open spec fn rename_target(self, pid: u32, old_p: Seq<char>, new_p: Seq<char>) -> Result<
        (u64, u64, Seq<char>, u64, Seq<char>),
        FsError,
    > {
        match self.resolve(pid, path_names(old_p)) {
            Err(e) => Err(e),
            Ok((_, None)) => Err(FsError::InvalidArgument),
            Ok((id, Some((op, oname)))) => match parent_names(new_p) {
                None => Err(FsError::InvalidArgument),
                Some(pn) => match file_name(new_p) {
                    None => Err(FsError::InvalidName),
                    Some(nname) => match self.resolve(pid, pn) {
                        Err(e) => Err(e),
                        Ok((np, _)) => match self.node(np) {
                            None => Err(FsError::NotFound),
                            Some(d) => match d.kind {
                                KindV::Dir { children } => {
                                    if find_child(children, nname) is Some {
                                        Err(FsError::AlreadyExists)
                                    } else {
                                        match self.node(id) {
                                            None => Err(FsError::NotFound),
                                            Some(n) => {
                                                if !self.removal_ok(self.user_of(pid), op, n) {
                                                    Err(FsError::AccessDenied)
                                                } else if !self.access_ok(self.user_of(pid), d, false, true, true) {
                                                    Err(FsError::AccessDenied)
                                                } else {
                                                    Ok((id, op, oname, np, nname))
                                                }
                                            },
                                        }
                                    }
                                },
                                _ => Err(FsError::NotADirectory),
                            },
                        },
                    },
                },
            },
        }
    }

    /// Node `k` after moving `id` from `op`/`oname` to `np`/`nname` at time `t`:
    /// both directories and the moved node get change time `t`.
    pub open spec fn after_rename(self, k: u64, id: u64, op: u64, oname: Seq<char>, np: u64, nname: Seq<char>, t: i64) -> Option<NodeV> {
        let a = if k == op {
            with_ctime(removed_child(self.node(k), oname), t, true)
        } else {
            self.node(k)
        };
        let b = if k == np {
            with_ctime(added_child(a, nname, id), t, true)
        } else {
            a
        };
        if k == id {
            with_ctime(b, t, false)
        } else {
            b
        }
    }

    /// Computes [`rename_target`](Self::rename_target).
    fn rename_target_exec(&self, pid: u32, old_path: &str, new_path: &str) -> (r: Result<(u64, u64, String, u64, String), FsError>)
        ensures
            match (r, self.rename_target(pid, old_path@, new_path@)) {
                (Ok((a, b, c, d, e)), Ok((a2, b2, c2, d2, e2))) => a == a2 && b == b2 && c@ == c2 && d == d2 && e@ == e2,
                (Err(e), Err(e2)) => e == e2,
                _ => false,
            },
    {
        let parts = path_parts(old_path);
        assert(names_view(parts.names@) == path_names(old_path@));
        let (id, parent_info) = match self.resolve_path(pid, &parts.names) {
            Ok(x) => x,
            Err(e) => return Err(e),
        };
        let (op, oname) = match parent_info {
            Some(x) => x,
            None => return Err(FsError::InvalidArgument),
        };
        let nparts = path_parts(new_path);
        let nparent = match nparts.parent {
            Some(p) => p,
            None => return Err(FsError::InvalidArgument),
        };
        let nname = match nparts.file_name {
            Some(n) => n,
            None => return Err(FsError::InvalidName),
        };
        assert(names_view(nparent@) == strings_view(nparent@));
        let (np, _) = match self.resolve_path(pid, &nparent) {
            Ok(x) => x,
            Err(e) => return Err(e),
        };
        let d = match self.get_node(np) {
            Some(d) => d,
            None => return Err(FsError::NotFound),
        };
        match &d.kind {
            NodeKind::Directory { children } => {
                if find_child_index(children, &nname).is_some() {
                    return Err(FsError::AlreadyExists);
                }
            },
            _ => return Err(FsError::NotADirectory),
        }
        let n = match self.get_node(id) {
            Some(n) => n,
            None => return Err(FsError::NotFound),
        };
        let user = self.user_for(pid);
        if !self.check_removal(user, op, n) {
            return Err(FsError::AccessDenied);
        }
        if !self.check_access(user, d, false, true, true) {
            return Err(FsError::AccessDenied);
        }
        Ok((id, op, oname, np, nname))
    }

    /// Sets the change time of node `id` to `t` (when `dirs_only`, only if it is a directory).
    fn touch_ctime(&mut self, id: u64, t: i64, dirs_only: bool)
        requires
            old(self).wf(),
        ensures
            final(self).wf(),
            final(self).same_bookkeeping(*old(self)),
            final(self).storage == old(self).storage,
            final(self).nodes@.len() == old(self).nodes@.len(),
            final(self).node(id) == with_ctime(old(self).node(id), t, dirs_only),
            forall|k: u64| k != id ==> final(self).node(k) == old(self).node(k),
    {
        let n = match self.take_node(id) {
            Some(n) => n,
            None => return,
        };
        let is_dir = match &n.kind {
            NodeKind::Directory { .. } => true,
            _ => false,
        };
        let Node { id: nid, kind, times, mode, uid, gid, xattrs } = n;
        let times = if dirs_only && !is_dir { times } else { FileTimes { ctime: t, ..times } };
        let m = Node { id: nid, kind, times, mode, uid, gid, xattrs };
        assert(contents_present(*self, m@)) by {
            assert(super::streams_of(m@) == super::streams_of(n@));
        }
        self.put_node(m);
    }

    /// Moves the entry at `old_path` to `new_path`, which must not exist, and
    /// sets the change time of the node and of both directories to now.
    pub fn rename(&mut self, pid: &PID, old_path: &str, new_path: &str) -> (r: FsResult<()>)
        requires
            old(self).wf(),
        ensures
            final(self).delivered == old(self).delivered,
            final(self).wf(),
            match old(self).rename_target(pid.0, old_path@, new_path@) {
                Ok((id, op, oname, np, nname)) => {
                    let t = final(self).node(np).unwrap().times.ctime;
                    &&& r is Ok
                    &&& final(self).node(np) is Some
                    &&& forall|k: u64| #[trigger] final(self).node(k) == old(self).after_rename(k, id, op, oname, np, nname, t)
                    &&& final(self).nodes@.len() == old(self).nodes@.len()
                    &&& final(self).storage == old(self).storage
                    &&& final(self).same_bookkeeping(*old(self))
                },
                Err(e) => r == Err::<(), FsError>(e) && *final(self) == *old(self),
            },
    {
        let (id, op, oname, np, nname) = match self.rename_target_exec(pid.0, old_path, new_path) {
            Ok(x) => x,
            Err(e) => return Err(e),
        };
        let ghost nname_v = nname@;
        let now = current_timestamp();
        self.dir_remove_child(op, &oname);
        self.touch_ctime(op, now, true);
        let ghost s2 = *self;
        proof {
            let c = old(self).node(np).unwrap().kind->Dir_children;
            crate::seqs::lemma_first_match(c, super::child_named(nname_v));
            if np == op {
                if let Some(i) = child_index(c, oname@) {
                    crate::seqs::lemma_first_match(c, super::child_named(oname@));
                    let rc = c.remove(i);
                    assert forall|j: int| 0 <= j < rc.len() implies !super::child_named(nname_v)(#[trigger] rc[j]) by {
                        if j < i {
                            assert(rc[j] == c[j]);
                        } else {
                            assert(rc[j] == c[j + 1]);
                        }
                    }
                    crate::seqs::lemma_first_match_none(rc, super::child_named(nname_v));
                }
            }
        }
        self.dir_add_child(np, nname, id);
        self.touch_ctime(np, now, true);
        let ghost s4 = *self;
        self.touch_ctime(id, now, false);
        proof {
            assert forall|k: u64| #[trigger] s2.node(k) == (if k == op {
                with_ctime(removed_child(old(self).node(k), oname@), now, true)
            } else {
                old(self).node(k)
            }) by {}
            assert forall|k: u64| #[trigger] s4.node(k) == (if k == np {
                with_ctime(added_child(s2.node(k), nname_v, id), now, true)
            } else {
                s2.node(k)
            }) by {}
            assert(self.node(np) is Some);
            assert(self.node(np).unwrap().times.ctime == now);
            assert forall|k: u64| #[trigger] self.node(k) == old(self).after_rename(k, id, op, oname@, np, nname_v, now) by {}
        }
        Ok(())
    }
}

} // verus!
