//! Node metadata: attributes, times, mode, owner, symlink targets.

use vstd::prelude::*;

use crate::clock::current_timestamp;
use crate::error::{FsError, FsResult};
use crate::path::{path_names, path_parts};
use crate::types::{Attributes, FileMode, FileTimes, PID};
use super::arena::contents_present;
use super::resolve::names_view;
use super::{attributes_of, mode_triple, FsCore, KindV, Node, NodeKind, NodeV, Stream};

verus! {

/// `mode` without its setuid and setgid bits.
pub open spec fn without_setid(mode: u32) -> u32 {
    mode & 0xFFFF_F3FFu32
}

/// Permission triple of the three bits `bits`.
fn mode_of_bits(bits: u32) -> (m: FileMode)
    ensures
        m == mode_triple(bits),
{
    FileMode { read: (bits / 4) % 2 == 1, write: (bits / 2) % 2 == 1, execute: bits % 2 == 1 }
}

impl FsCore {
    /// Existing node process `pid` reaches at path `p`.
    pub open spec fn lookup(self, pid: u32, p: Seq<char>) -> Result<u64, FsError> {
        match self.resolve(pid, path_names(p)) {
            Err(e) => Err(e),
            Ok((id, _)) => if self.node(id) is Some {
                Ok(id)
            } else {
                Err(FsError::NotFound)
            },
        }
    }

    /// Computes [`lookup`](Self::lookup).
    pub fn lookup_exec(&self, pid: u32, path: &str) -> (r: FsResult<u64>)
        ensures
            r == self.lookup(pid, path@),
    {
        let parts = path_parts(path);
        assert(names_view(parts.names@) == path_names(path@));
        let (id, _) = match self.resolve_path(pid, &parts.names) {
            Ok(x) => x,
            Err(e) => return Err(e),
        };
        if self.get_node(id).is_none() {
            return Err(FsError::NotFound);
        }
        Ok(id)
    }

    /// Attributes of a stored node.
    pub fn node_attributes(&self, n: &Node) -> (a: Attributes)
        ensures
            a == attributes_of(n@),
    {
        let (len, is_dir, is_symlink) = match &n.kind {
            NodeKind::File { streams } => {
                let empty = String::new();
                assert(empty@ == Seq::<char>::empty());
                let len = match super::io::find_stream_index(streams, &empty) {
                    Some(i) => {
                        proof {
                            assert(streams@.map_values(|s: Stream| s@)[i as int] == streams@[i as int]@);
                        }
                        streams[i].size
                    },
                    None => 0,
                };
                assert(len == super::default_stream_size(streams@.map_values(|s: Stream| s@)));
                (len, false, false)
            },
            NodeKind::Directory { .. } => (0, true, false),
            NodeKind::Symlink { target } => (target.as_str().len() as u64, false, true),
        };
        Attributes {
            len,
            times: n.times,
            uid: n.uid,
            gid: n.gid,
            is_dir,
            is_symlink,
            mode_user: mode_of_bits((n.mode / 64) % 8),
            mode_group: mode_of_bits((n.mode / 8) % 8),
            mode_other: mode_of_bits(n.mode % 8),
        }
    }

    /// Attributes of node `id`.
    pub fn get_node_attributes(&self, id: u64) -> (r: FsResult<Attributes>)
        ensures
            match self.node(id) {
                Some(n) => r == Ok::<Attributes, FsError>(attributes_of(n)),
                None => r == Err::<Attributes, FsError>(FsError::NotFound),
            },
    {
        match self.get_node(id) {
            Some(n) => Ok(self.node_attributes(n)),
            None => Err(FsError::NotFound),
        }
    }

    /// Attributes of the node at `path`: the size of a file's unnamed stream
    /// (0 for a directory, the target's byte length for a symlink), times,
    /// owner, kind and the permission bits of each class.
    pub fn getattr(&self, pid: &PID, path: &str) -> (r: FsResult<Attributes>)
        ensures
            match self.lookup(pid.0, path@) {
                Ok(id) => r == Ok::<Attributes, FsError>(attributes_of(self.node(id).unwrap())),
                Err(e) => r == Err::<Attributes, FsError>(e),
            },
    {
        let id = match self.lookup_exec(pid.0, path) {
            Ok(id) => id,
            Err(e) => return Err(e),
        };
        self.get_node_attributes(id)
    }

    /// Replaces the mode, owner and times of the existing node `id`.
    fn set_meta(&mut self, id: u64, mode: u32, uid: u32, gid: u32, times: FileTimes)
        requires
            old(self).wf(),
            old(self).node(id) is Some,
        ensures
            final(self).wf(),
            final(self).same_bookkeeping(*old(self)),
            final(self).storage == old(self).storage,
            final(self).nodes@.len() == old(self).nodes@.len(),
            final(self).node(id) == Some(NodeV { mode, uid, gid, times, ..old(self).node(id).unwrap() }),
            forall|k: u64| k != id ==> final(self).node(k) == old(self).node(k),
    {
        let n = match self.take_node(id) {
            Some(n) => n,
            None => return,
        };
        let Node { id: nid, kind, xattrs, .. } = n;
        let m = Node { id: nid, kind, times, mode, uid, gid, xattrs };
        assert(contents_present(*self, m@)) by {
            assert(super::streams_of(m@) == super::streams_of(n@));
        }
        self.put_node(m);
    }

    /// Sets all four timestamps of the node at `path` (no permission check).
    pub fn set_times(&mut self, pid: &PID, path: &str, times: FileTimes) -> (r: FsResult<()>)
        requires
            old(self).wf(),
        ensures
            final(self).delivered == old(self).delivered,
            final(self).wf(),
            match old(self).lookup(pid.0, path@) {
                Ok(id) => {
                    let n = old(self).node(id).unwrap();
                    &&& r is Ok
                    &&& final(self).node(id) == Some(NodeV { times, ..n })
                    &&& forall|k: u64| k != id ==> final(self).node(k) == old(self).node(k)
                    &&& final(self).nodes@.len() == old(self).nodes@.len()
                    &&& final(self).same_bookkeeping(*old(self))
                    &&& final(self).storage == old(self).storage
                },
                Err(e) => r == Err::<(), FsError>(e) && *final(self) == *old(self),
            },
    {
        let id = match self.lookup_exec(pid.0, path) {
            Ok(id) => id,
            Err(e) => return Err(e),
        };
        let (mode, uid, gid) = match self.get_node(id) {
            Some(n) => (n.mode, n.uid, n.gid),
            None => return Err(FsError::NotFound),
        };
        self.set_meta(id, mode, uid, gid, times);
        Ok(())
    }

    /// Sets the mode of the node at `path` and its change time to the
    /// clock's current reading (see [`set_mode_at`](Self::set_mode_at)).
    pub fn set_mode(&mut self, pid: &PID, path: &str, mode: u32) -> (r: FsResult<()>)
        requires
            old(self).wf(),
        ensures
            final(self).delivered == old(self).delivered,
            final(self).wf(),
            match old(self).lookup(pid.0, path@) {
                Ok(id) => {
                    let n = old(self).node(id).unwrap();
                    if !old(self).chmod_ok(old(self).user_of(pid.0), n) {
                        r == Err::<(), FsError>(FsError::AccessDenied) && *final(self) == *old(self)
                    } else {
                        &&& r is Ok
                        &&& final(self).node(id) matches Some(m) && m == NodeV {
                            mode,
                            times: FileTimes { ctime: m.times.ctime, ..n.times },
                            ..n
                        }
                        &&& forall|k: u64| k != id ==> final(self).node(k) == old(self).node(k)
                        &&& final(self).nodes@.len() == old(self).nodes@.len()
                        &&& final(self).same_bookkeeping(*old(self))
                        &&& final(self).storage == old(self).storage
                    }
                },
                Err(e) => r == Err::<(), FsError>(e) && *final(self) == *old(self),
            },
    {
        let now = current_timestamp();
        self.set_mode_at(pid, path, mode, now)
    }

    /// Sets the mode of the node at `path` and its change time to `now`.
    /// Only the owner or uid 0 may do so while permissions are enforced.
    pub fn set_mode_at(&mut self, pid: &PID, path: &str, mode: u32, now: i64) -> (r: FsResult<()>)
        requires
            old(self).wf(),
        ensures
            final(self).delivered == old(self).delivered,
            final(self).wf(),
            match old(self).lookup(pid.0, path@) {
                Ok(id) => {
                    let n = old(self).node(id).unwrap();
                    if !old(self).chmod_ok(old(self).user_of(pid.0), n) {
                        r == Err::<(), FsError>(FsError::AccessDenied) && *final(self) == *old(self)
                    } else {
                        &&& r is Ok
                        &&& final(self).node(id) matches Some(m) && m == NodeV {
                            mode,
                            times: FileTimes { ctime: now, ..n.times },
                            ..n
                        }
                        &&& forall|k: u64| k != id ==> final(self).node(k) == old(self).node(k)
                        &&& final(self).nodes@.len() == old(self).nodes@.len()
                        &&& final(self).same_bookkeeping(*old(self))
                        &&& final(self).storage == old(self).storage
                    }
                },
                Err(e) => r == Err::<(), FsError>(e) && *final(self) == *old(self),
            },
    {
        let id = match self.lookup_exec(pid.0, path) {
            Ok(id) => id,
            Err(e) => return Err(e),
        };
        let user = self.user_for(pid.0);
        let (uid, gid, times) = match self.get_node(id) {
            Some(n) => {
                if !self.check_chmod(user, n) {
                    return Err(FsError::AccessDenied);
                }
                (n.uid, n.gid, n.times)
            },
            None => return Err(FsError::NotFound),
        };
        self.set_meta(id, mode, uid, gid, FileTimes { ctime: now, ..times });
        Ok(())
    }

    /// Gives the node at `path` the owner `uid`:`gid`, clears its setuid and
    /// setgid bits and sets its change time to the clock's current reading
    /// (see [`set_owner_at`](Self::set_owner_at)).
    pub fn set_owner(&mut self, pid: &PID, path: &str, uid: u32, gid: u32) -> (r: FsResult<()>)
        requires
            old(self).wf(),
        ensures
            final(self).delivered == old(self).delivered,
            final(self).wf(),
            match old(self).lookup(pid.0, path@) {
                Ok(id) => {
                    let n = old(self).node(id).unwrap();
                    if !old(self).chown_ok(old(self).user_of(pid.0), n, uid, gid) {
                        r == Err::<(), FsError>(FsError::AccessDenied) && *final(self) == *old(self)
                    } else {
                        &&& r is Ok
                        &&& final(self).node(id) matches Some(m) && m == NodeV {
                            uid,
                            gid,
                            mode: without_setid(n.mode),
                            times: FileTimes { ctime: m.times.ctime, ..n.times },
                            ..n
                        }
                        &&& forall|k: u64| k != id ==> final(self).node(k) == old(self).node(k)
                        &&& final(self).nodes@.len() == old(self).nodes@.len()
                        &&& final(self).same_bookkeeping(*old(self))
                        &&& final(self).storage == old(self).storage
                    }
                },
                Err(e) => r == Err::<(), FsError>(e) && *final(self) == *old(self),
            },
    {
        let now = current_timestamp();
        self.set_owner_at(pid, path, uid, gid, now)
    }

    /// Gives the node at `path` the owner `uid`:`gid`, clears its setuid and
    /// setgid bits and sets its change time to `now`. While permissions are
    /// enforced, uid 0 may give any owner; the owner may only change the
    /// group to its own.
    pub fn set_owner_at(&mut self, pid: &PID, path: &str, uid: u32, gid: u32, now: i64) -> (r: FsResult<()>)
        requires
            old(self).wf(),
        ensures
            final(self).delivered == old(self).delivered,
            final(self).wf(),
            match old(self).lookup(pid.0, path@) {
                Ok(id) => {
                    let n = old(self).node(id).unwrap();
                    if !old(self).chown_ok(old(self).user_of(pid.0), n, uid, gid) {
                        r == Err::<(), FsError>(FsError::AccessDenied) && *final(self) == *old(self)
                    } else {
                        &&& r is Ok
                        &&& final(self).node(id) matches Some(m) && m == NodeV {
                            uid,
                            gid,
                            mode: without_setid(n.mode),
                            times: FileTimes { ctime: now, ..n.times },
                            ..n
                        }
                        &&& forall|k: u64| k != id ==> final(self).node(k) == old(self).node(k)
                        &&& final(self).nodes@.len() == old(self).nodes@.len()
                        &&& final(self).same_bookkeeping(*old(self))
                        &&& final(self).storage == old(self).storage
                    }
                },
                Err(e) => r == Err::<(), FsError>(e) && *final(self) == *old(self),
            },
    {
        let id = match self.lookup_exec(pid.0, path) {
            Ok(id) => id,
            Err(e) => return Err(e),
        };
        let user = self.user_for(pid.0);
        let (mode, times) = match self.get_node(id) {
            Some(n) => {
                if !self.check_chown(user, n, uid, gid) {
                    return Err(FsError::AccessDenied);
                }
                (n.mode, n.times)
            },
            None => return Err(FsError::NotFound),
        };
        self.set_meta(id, mode & 0xFFFF_F3FFu32, uid, gid, FileTimes { ctime: now, ..times });
        Ok(())
    }

    /// Target of the symbolic link at `path`.
    pub fn readlink(&self, pid: &PID, path: &str) -> (r: FsResult<String>)
        ensures
            match self.lookup(pid.0, path@) {
                Ok(id) => match self.node(id).unwrap().kind {
                    KindV::Symlink { target } => r matches Ok(s) && s@ == target,
                    _ => r == Err::<String, FsError>(FsError::InvalidArgument),
                },
                Err(e) => r == Err::<String, FsError>(e),
            },
    {
        let id = match self.lookup_exec(pid.0, path) {
            Ok(id) => id,
            Err(e) => return Err(e),
        };
        match self.get_node(id) {
            Some(n) => match &n.kind {
                NodeKind::Symlink { target } => Ok(target.clone()),
                _ => Err(FsError::InvalidArgument),
            },
            None => Err(FsError::NotFound),
        }
    }

    /// Node id at `path` and the id of the directory it was found in (none for a root).
    pub fn resolve_path_public(&self, pid: &PID, path: &str) -> (r: FsResult<(u64, Option<u64>)>)
        ensures
            match self.resolve(pid.0, path_names(path@)) {
                Ok((id, parent)) => r == Ok::<(u64, Option<u64>), FsError>(
                    (
                        id,
                        match parent {
                            Some((p, _)) => Some(p),
                            None => None,
                        },
                    ),
                ),
                Err(e) => r == Err::<(u64, Option<u64>), FsError>(e),
            },
    {
        let parts = path_parts(path);
        assert(names_view(parts.names@) == path_names(path@));
        match self.resolve_path(pid.0, &parts.names) {
            Ok((id, parent)) => {
                let p = match parent {
                    Some((d, _)) => Some(d),
                    None => None,
                };
                Ok((id, p))
            },
            Err(e) => Err(e),
        }
    }
}

} // verus!
