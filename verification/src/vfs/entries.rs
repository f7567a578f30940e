//! Creating directory entries: mkdir, create, symlink.

use vstd::prelude::*;

use crate::error::{FsError, FsResult};
use crate::path::{file_name, parent_names, path_names, path_parts, strings_view};

use crate::storage::StorageBackend;
use crate::text::owned;
use crate::types::{EventKind, HandleId, OpenOptions, OpenOptionsView};
use super::nodes::{fresh_times, new_dir_node, new_file_node, new_symlink_node};
use super::resolve::names_view;
use super::{find_child, EventV, FsCore, Handle, KindV, NodeKind, NodeV};

verus! {

/// Handle `h` is a fresh handle with id `id` on node `node` opened with `opts`.
pub open spec fn fresh_handle(h: Handle, id: u64, node: u64, opts: OpenOptionsView) -> bool {
    h.id.0 == id && h.node_id == node && h.position == 0 && h.options@ == opts && !h.deleted
}

impl FsCore {
    /// Where a new entry at `p` goes: its parent directory and its name.
    /// The path must not resolve, must have a proper last name (else `name_err`),
    /// its parent must resolve to a directory without that name, which grants
    /// write and search permission.
    pub open spec fn entry_target(self, pid: u32, p: Seq<char>, name_err: FsError) -> Result<(u64, Seq<char>), FsError> {
        if self.resolve(pid, path_names(p)) is Ok {
            Err(FsError::AlreadyExists)
        } else {
            match parent_names(p) {
                None => Err(FsError::InvalidArgument),
                Some(pn) => match file_name(p) {
                    None => Err(name_err),
                    Some(name) => match self.resolve(pid, pn) {
                        Err(e) => Err(e),
                        Ok((dir, _)) => match self.node(dir) {
                            None => Err(FsError::NotFound),
                            Some(d) => match d.kind {
                                KindV::Dir { children } => {
                                    if find_child(children, name) is Some {
                                        Err(FsError::AlreadyExists)
                                    } else if !self.access_ok(self.user_of(pid), d, false, true, true) {
                                        Err(FsError::AccessDenied)
                                    } else {
                                        Ok((dir, name))
                                    }
                                },
                                _ => Err(FsError::NotADirectory),
                            },
                        },
                    },
                },
            }
        }
    }

    /// `self` is `old` with a new node, the next id, entered in the directory
    /// that [`entry_target`](Self::entry_target) names for `p`, under its
    /// name; no other node changes, and the registry stays as it was.
    pub open spec fn entry_made(self, old: FsCore, pid: u32, p: Seq<char>, name_err: FsError) -> bool {
        let id = old.next_node_id() as u64;
        &&& old.entry_target(pid, p, name_err) matches Ok((dir, name))
        &&& old.can_allocate_node()
        &&& self.nodes@.len() == old.nodes@.len() + 1
        &&& self.node(id) is Some
        &&& old.node(dir) matches Some(d) && d.kind matches KindV::Dir { children } && self.node(dir) == Some(
            NodeV { kind: KindV::Dir { children: children.push((name, id)) }, ..d },
        )
        &&& forall|k: u64| k != id && k != dir ==> self.node(k) == old.node(k)
        &&& self.relog(old).same_registry(old)
    }

    /// Whether another handle id can be handed out.
    pub open spec fn can_allocate_handle(self) -> bool {
        self.next_handle_id < u64::MAX
    }

    /// Computes [`entry_target`](Self::entry_target).
    pub fn entry_target_exec(&self, pid: u32, path: &str, name_err: FsError) -> (r: Result<(u64, String), FsError>)
        ensures
            match (r, self.entry_target(pid, path@, name_err)) {
                (Ok((d, n)), Ok((d2, n2))) => d == d2 && n@ == n2,
                (Err(e), Err(e2)) => e == e2,
                _ => false,
            },
    {
        let parts = path_parts(path);
        assert(names_view(parts.names@) == path_names(path@));
        if self.resolve_path(pid, &parts.names).is_ok() {
            return Err(FsError::AlreadyExists);
        }
        let parent = match parts.parent {
            Some(p) => p,
            None => return Err(FsError::InvalidArgument),
        };
        let name = match parts.file_name {
            Some(n) => n,
            None => return Err(name_err),
        };
        assert(names_view(parent@) == strings_view(parent@));
        let (dir, _) = match self.resolve_path(pid, &parent) {
            Ok(x) => x,
            Err(e) => return Err(e),
        };
        let d = match self.get_node(dir) {
            Some(d) => d,
            None => return Err(FsError::NotFound),
        };
        match &d.kind {
            NodeKind::Directory { children } => {
                if super::resolve::find_child_index(children, &name).is_some() {
                    return Err(FsError::AlreadyExists);
                }
                let user = self.user_for(pid);
                if !self.check_access(user, d, false, true, true) {
                    return Err(FsError::AccessDenied);
                }
                Ok((dir, name))
            },
            _ => Err(FsError::NotADirectory),
        }
    }

    /// Outcome `r` of making directory `p` with `mode` for `pid`, `self` after
    /// `old`: on success a new directory node owned by the identity of `pid`
    /// was entered as [`entry_made`](Self::entry_made) says; on failure nothing
    /// changed and the error is the target's, or `NoSpace` when node ids ran out.
    pub open spec fn made_dir(self, old: FsCore, pid: u32, p: Seq<char>, mode: u32, r: FsResult<()>) -> bool {
        match r {
            Ok(_) => {
                let id = old.next_node_id() as u64;
                let user = old.user_of(pid);
                &&& self.entry_made(old, pid, p, FsError::InvalidName)
                &&& self.node(id) matches Some(n) && fresh_times(n.times) && n == new_dir_node(
                    id,
                    n.times,
                    mode,
                    user.uid,
                    user.gid,
                )
                &&& self.relog(old).same_bookkeeping(old)
                &&& self.storage == old.storage
                &&& self.delivered@ == old.delivered@ + old.notices(EventV::Created { path: p })
            },
            Err(e) => {
                &&& (old.entry_target(pid, p, FsError::InvalidName) == Err::<(u64, Seq<char>), FsError>(e)
                    || (e == FsError::NoSpace && old.entry_target(pid, p, FsError::InvalidName) is Ok
                    && !old.can_allocate_node()))
                &&& self == old
            },
        }
    }

    /// Creates directory `path` with permission bits `mode`, owned by the
    /// identity of `pid`, and reports it as created.
    pub fn mkdir(&mut self, pid: &crate::types::PID, path: &str, mode: u32) -> (r: FsResult<()>)
        requires
            old(self).wf(),
        ensures
            final(self).wf(),
            final(self).made_dir(*old(self), pid.0, path@, mode, r),
    {
        let (dir, name) = match self.entry_target_exec(pid.0, path, FsError::InvalidName) {
            Ok(x) => x,
            Err(e) => return Err(e),
        };
        if self.nodes.len() as u64 >= u64::MAX - 1 {
            return Err(FsError::NoSpace);
        }
        let user = self.user_for(pid.0);
        let id = match self.create_directory_node(mode, user.uid, user.gid) {
            Ok(id) => id,
            Err(e) => return Err(e),
        };
        self.dir_add_child(dir, name, id);
        self.emit_event(EventKind::Created { path: owned(path) });
        Ok(())
    }

    /// Outcome `r` of creating file `p` opened with `o` for `pid`, `self`
    /// after `old`: on success a new file node with a fresh empty content,
    /// owned by the identity of `pid`, was entered as
    /// [`entry_made`](Self::entry_made) says and a handle on it was added; on
    /// failure nothing changed and the error is the target's, or `NoSpace`
    /// when node, handle or content ids ran out.
    pub open spec fn created(self, old: FsCore, pid: u32, p: Seq<char>, o: OpenOptionsView, r: FsResult<HandleId>) -> bool {
        match r {
            Ok(h) => {
                let id = old.next_node_id() as u64;
                let c = old.storage.next_id;
                let user = old.user_of(pid);
                &&& self.entry_made(old, pid, p, FsError::InvalidName)
                &&& self.storage.content_map() == old.storage.content_map().insert(c, Seq::empty())
                &&& old.content(c) is None
                &&& self.node(id) matches Some(n) && fresh_times(n.times) && n == new_file_node(
                    id,
                    n.times,
                    c,
                    user.uid,
                    user.gid,
                )
                &&& h.0 == old.next_handle_id
                &&& self.next_handle_id == old.next_handle_id + 1
                &&& self.handles@.len() == old.handles@.len() + 1
                &&& self.handles@.drop_last() == old.handles@
                &&& fresh_handle(self.handles@.last(), h.0, id, o)
                &&& self.relog(old).same_registry(old)
                &&& self.delivered@ == old.delivered@ + old.notices(EventV::Created { path: p })
            },
            Err(e) => {
                &&& (old.entry_target(pid, p, FsError::InvalidName) == Err::<(u64, Seq<char>), FsError>(e)
                    || (e == FsError::NoSpace && old.entry_target(pid, p, FsError::InvalidName) is Ok
                    && !(old.can_allocate_node() && old.can_allocate_handle()
                    && old.storage.next_id < u64::MAX)))
                &&& self == old
            },
        }
    }

    /// Creates file `path` (mode 0644, owned by the identity of `pid`) with an
    /// empty unnamed stream, opens it with `opts` and reports it as created.
    pub fn create(&mut self, pid: &crate::types::PID, path: &str, opts: &OpenOptions) -> (r: FsResult<HandleId>)
        requires
            old(self).wf(),
        ensures
            final(self).wf(),
            final(self).created(*old(self), pid.0, path@, opts@, r),
    {
        let (dir, name) = match self.entry_target_exec(pid.0, path, FsError::InvalidName) {
            Ok(x) => x,
            Err(e) => return Err(e),
        };
        if self.nodes.len() as u64 >= u64::MAX - 1 || self.next_handle_id == u64::MAX
            || self.storage.next_id == u64::MAX {
            return Err(FsError::NoSpace);
        }
        let user = self.user_for(pid.0);
        let empty: Vec<u8> = Vec::new();
        let content = match self.storage.allocate(empty.as_slice()) {
            Ok(c) => c,
            Err(e) => return Err(e),
        };
        assert(empty@ =~= Seq::<u8>::empty());
        proof {
            (*self).lemma_storage_grew(*old(self));
        }
        assert(self.storage.content_map().contains_key(content.0));
        let ghost s1 = *self;
        assert(s1.nodes == old(self).nodes);
        let id = match self.create_file_node(content, user.uid, user.gid) {
            Ok(id) => id,
            Err(e) => return Err(e),
        };
        let ghost s2 = *self;
        self.dir_add_child(dir, name, id);
        let ghost s3 = *self;
        assert forall|k: u64| k != id && k != dir implies s3.node(k) == old(self).node(k) by {
            assert(s3.node(k) == s2.node(k));
            assert(s2.node(k) == s1.node(k));
        }
        let hid = HandleId::new(self.next_handle_id);
        self.next_handle_id = self.next_handle_id + 1;
        let options = opts.copy();
        self.handles.push(Handle { id: hid, node_id: id, position: 0, options, deleted: false });
        assert(id == old(self).next_node_id() as u64);
        assert forall|k: u64| k != id && k != dir implies self.node(k) == old(self).node(k) by {
            assert(self.node(k) == s3.node(k));
        }
        self.emit_event(EventKind::Created { path: owned(path) });
        assert(self.handles@.drop_last() =~= old(self).handles@);
        assert(self.storage.content_map() =~= old(self).storage.content_map().insert(
            content.0,
            Seq::empty(),
        ));
        Ok(hid)
    }

    /// Outcome `r` of linking `p` to `target` for `pid`, `self` after `old`: on
    /// success a new symlink node owned by the identity of `pid` was entered
    /// as [`entry_made`](Self::entry_made) says; on failure nothing changed and
    /// the error is the target's, or `NoSpace` when node ids ran out.
    pub open spec fn linked(self, old: FsCore, pid: u32, target: Seq<char>, p: Seq<char>, r: FsResult<()>) -> bool {
        match r {
            Ok(_) => {
                let id = old.next_node_id() as u64;
                let user = old.user_of(pid);
                &&& self.entry_made(old, pid, p, FsError::InvalidArgument)
                &&& self.node(id) matches Some(n) && fresh_times(n.times) && n == new_symlink_node(
                    id,
                    n.times,
                    target,
                    user.uid,
                    user.gid,
                )
                &&& self.relog(old).same_bookkeeping(old)
                &&& self.storage == old.storage
                &&& self.delivered@ == old.delivered@ + old.notices(EventV::Created { path: p })
            },
            Err(e) => {
                &&& (old.entry_target(pid, p, FsError::InvalidArgument) == Err::<(u64, Seq<char>), FsError>(e)
                    || (e == FsError::NoSpace && old.entry_target(pid, p, FsError::InvalidArgument) is Ok
                    && !old.can_allocate_node()))
                &&& self == old
            },
        }
    }

    /// Creates a symbolic link at `linkpath` pointing to `target`, owned by the
    /// identity of `pid`, and reports it as created.
    pub fn symlink(&mut self, pid: &crate::types::PID, target: &str, linkpath: &str) -> (r: FsResult<()>)
        requires
            old(self).wf(),
        ensures
            final(self).wf(),
            final(self).linked(*old(self), pid.0, target@, linkpath@, r),
    {
        let (dir, name) = match self.entry_target_exec(pid.0, linkpath, FsError::InvalidArgument) {
            Ok(x) => x,
            Err(e) => return Err(e),
        };
        if self.nodes.len() as u64 >= u64::MAX - 1 {
            return Err(FsError::NoSpace);
        }
        let user = self.user_for(pid.0);
        let id = match self.create_symlink_node(owned(target), user.uid, user.gid) {
            Ok(id) => id,
            Err(e) => return Err(e),
        };
        self.dir_add_child(dir, name, id);
        self.emit_event(EventKind::Created { path: owned(linkpath) });
        Ok(())
    }
}

} // verus!
