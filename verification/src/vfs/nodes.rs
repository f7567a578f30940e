//! Construction of the core and of new nodes.

use vstd::prelude::*;

use crate::clock::current_timestamp;
use crate::config::FsConfig;
use crate::error::{FsError, FsResult};
use crate::storage::InMemoryBackend;
use crate::text::owned;
use crate::types::{BranchId, ContentId, EventKind, FileTimes};
use super::arena::contents_present;
use super::{default_branch_bytes, opt_view, Branch, FsCore, KindV, Node, NodeKind, NodeV, Stream, StreamV};

verus! {

/// All four timestamps of a new node are the same instant.
pub open spec fn fresh_times(t: FileTimes) -> bool {
    t.atime == t.mtime && t.mtime == t.ctime && t.ctime == t.birthtime
}

/// A new empty directory.
pub open spec fn new_dir_node(id: u64, t: FileTimes, mode: u32, uid: u32, gid: u32) -> NodeV {
    NodeV { id, kind: KindV::Dir { children: Seq::empty() }, times: t, mode, uid, gid, xattrs: Seq::empty() }
}

/// A new file whose unnamed stream is `content`, of size 0, with mode 0644.
pub open spec fn new_file_node(id: u64, t: FileTimes, content: u64, uid: u32, gid: u32) -> NodeV {
    NodeV {
        id,
        kind: KindV::File { streams: seq![StreamV { name: Seq::empty(), content, size: 0 }] },
        times: t,
        mode: 0o644,
        uid,
        gid,
        xattrs: Seq::empty(),
    }
}

/// A new symbolic link to `target`, with mode 0777.
pub open spec fn new_symlink_node(id: u64, t: FileTimes, target: Seq<char>, uid: u32, gid: u32) -> NodeV {
    NodeV { id, kind: KindV::Symlink { target }, times: t, mode: 0o777, uid, gid, xattrs: Seq::empty() }
}

/// Timestamps all set to `now`.
pub fn times_at(now: i64) -> (t: FileTimes)
    ensures
        fresh_times(t),
        t.ctime == now,
{
    FileTimes { atime: now, mtime: now, ctime: now, birthtime: now }
}

impl FsCore {
    /// `self` is a core as [`new`](Self::new) makes it for `config`: a root
    /// directory (id 1, mode 0755, owned by the configured default identity)
    /// serving as root of the default branch, and nothing else.
    pub open spec fn fresh(self, config: FsConfig) -> bool {
        &&& self.wf()
        &&& self.config == config
        &&& self.nodes@.len() == 1
        &&& self.node(1) matches Some(root) && root == new_dir_node(
            1,
            root.times,
            0o755,
            config.security.default_uid,
            config.security.default_gid,
        ) && fresh_times(root.times)
        &&& self.branches@.len() == 1
        &&& self.branches@[0].id.0@ == default_branch_bytes()
        &&& self.branches@[0].root_id == 1
        &&& self.branches@[0].parent_snapshot is None
        &&& opt_view(self.branches@[0].name) == Some("default"@)
        &&& self.snapshots@.len() == 0
        &&& self.handles@.len() == 0
        &&& self.processes@.len() == 0
        &&& self.process_branches@.len() == 0
        &&& self.locks@.len() == 0
        &&& self.subscription_ids@.len() == 0
        &&& self.delivered@.len() == 0
        &&& self.storage.content_map() == Map::<u64, Seq<u8>>::empty()
        &&& self.next_handle_id == 1
        &&& self.next_snapshot_seq == 1
        &&& self.next_branch_seq == 1
    }

    /// A core with a root directory (id 1, mode 0755, owned by the configured
    /// default identity) serving as root of the default branch.
    pub fn new(config: FsConfig) -> (r: FsResult<Self>)
        ensures
            r matches Ok(core) && core.fresh(config),
    {
        let mut core = FsCore {
            config,
            storage: InMemoryBackend::new(),
            nodes: Vec::new(),
            snapshots: Vec::new(),
            branches: Vec::new(),
            handles: Vec::new(),
            next_handle_id: 1,
            next_subscription_id: 1,
            next_snapshot_seq: 1,
            next_branch_seq: 1,
            processes: Vec::new(),
            process_branches: Vec::new(),
            locks: Vec::new(),
            subscription_ids: Vec::new(),
            sinks: Vec::new(),
            delivered: Ghost(Seq::empty()),
        };
        proof {
            assert forall|id: u64, k: int|
                #![trigger super::streams_of(super::node_in(core.nodes@, id).unwrap())[k]]
                super::node_in(core.nodes@, id) is Some && 0 <= k < super::streams_of(super::node_in(core.nodes@, id).unwrap()).len()
                    implies core.content(super::streams_of(super::node_in(core.nodes@, id).unwrap())[k].content) is Some by {
            }
        }
        core.create_root_directory();
        Ok(core)
    }

    fn create_root_directory(&mut self)
        requires
            old(self).wf(),
            old(self).nodes@.len() == 0,
            old(self).branches@.len() == 0,
        ensures
            final(self).wf(),
            final(self).config == old(self).config,
            final(self).storage == old(self).storage,
            final(self).nodes@.len() == 1,
            final(self).node(1) matches Some(root) && root == new_dir_node(
                1,
                root.times,
                0o755,
                old(self).config.security.default_uid,
                old(self).config.security.default_gid,
            ) && fresh_times(root.times),
            final(self).branches@.len() == 1,
            final(self).branches@[0].id.0@ == default_branch_bytes(),
            final(self).branches@[0].root_id == 1,
            final(self).branches@[0].parent_snapshot is None,
            opt_view(final(self).branches@[0].name) == Some("default"@),
            final(self).snapshots == old(self).snapshots,
            final(self).handles == old(self).handles,
            final(self).processes == old(self).processes,
            final(self).process_branches == old(self).process_branches,
            final(self).locks == old(self).locks,
            final(self).subscription_ids == old(self).subscription_ids,
            final(self).delivered == old(self).delivered,
            final(self).next_handle_id == old(self).next_handle_id,
            final(self).next_snapshot_seq == old(self).next_snapshot_seq,
            final(self).next_branch_seq == old(self).next_branch_seq,
    {
        let uid = self.config.security.default_uid;
        let gid = self.config.security.default_gid;
        let root_id = self.create_directory_node(0o755, uid, gid).unwrap();
        let name = owned("default");
        let default_branch = Branch {
            id: BranchId::default_branch(),
            root_id,
            parent_snapshot: None,
            name: Some(name),
        };
        self.branches.push(default_branch);
        assert(default_branch_bytes() =~= Seq::new(16, |i: int| 0u8));
    }

    /// Adds an empty directory with the given mode and owner.
    pub fn create_directory_node(&mut self, mode: u32, uid: u32, gid: u32) -> (r: FsResult<u64>)
        requires
            old(self).wf(),
        ensures
            final(self).wf(),
            final(self).same_bookkeeping(*old(self)),
            final(self).storage == old(self).storage,
            match r {
                Ok(id) => {
                    &&& id == old(self).next_node_id()
                    &&& final(self).nodes@.len() == old(self).nodes@.len() + 1
                    &&& final(self).node(id) matches Some(n) && n == new_dir_node(id, n.times, mode, uid, gid)
                        && fresh_times(n.times)
                    &&& forall|k: u64| k != id ==> final(self).node(k) == old(self).node(k)
                },
                Err(e) => e == FsError::NoSpace && !old(self).can_allocate_node() && final(self).nodes@
                    == old(self).nodes@,
            },
    {
        let id = match self.reserve_node_id() {
            Some(id) => id,
            None => return Err(FsError::NoSpace),
        };
        let now = current_timestamp();
        let node = Node {
            id,
            kind: NodeKind::Directory { children: Vec::new() },
            times: times_at(now),
            mode,
            uid,
            gid,
            xattrs: Vec::new(),
        };
        assert(node@.xattrs =~= Seq::empty());
        assert(node@.kind->Dir_children =~= Seq::empty());
        self.put_node(node);
        Ok(id)
    }

    /// Adds a file whose unnamed stream is `content`, owned by `uid`:`gid`.
    pub fn create_file_node(&mut self, content: ContentId, uid: u32, gid: u32) -> (r: FsResult<u64>)
        requires
            old(self).wf(),
            old(self).content(content.0) is Some,
        ensures
            final(self).wf(),
            final(self).same_bookkeeping(*old(self)),
            final(self).storage == old(self).storage,
            match r {
                Ok(id) => {
                    &&& id == old(self).next_node_id()
                    &&& final(self).nodes@.len() == old(self).nodes@.len() + 1
                    &&& final(self).node(id) matches Some(n) && n == new_file_node(id, n.times, content.0, uid, gid)
                        && fresh_times(n.times)
                    &&& forall|k: u64| k != id ==> final(self).node(k) == old(self).node(k)
                },
                Err(e) => e == FsError::NoSpace && !old(self).can_allocate_node() && final(self).nodes@
                    == old(self).nodes@,
            },
    {
        let id = match self.reserve_node_id() {
            Some(id) => id,
            None => return Err(FsError::NoSpace),
        };
        let now = current_timestamp();
        let mut streams: Vec<Stream> = Vec::new();
        streams.push(Stream { name: String::new(), content, size: 0 });
        let node = Node {
            id,
            kind: NodeKind::File { streams },
            times: times_at(now),
            mode: 0o644,
            uid,
            gid,
            xattrs: Vec::new(),
        };
        assert(node@.xattrs =~= Seq::empty());
        assert(node@.kind->File_streams =~= seq![StreamV { name: Seq::empty(), content: content.0, size: 0 }]);
        assert(contents_present(*self, node@));
        self.put_node(node);
        Ok(id)
    }

    /// Adds a symbolic link to `target`, owned by `uid`:`gid`.
    pub fn create_symlink_node(&mut self, target: String, uid: u32, gid: u32) -> (r: FsResult<u64>)
        requires
            old(self).wf(),
        ensures
            final(self).wf(),
            final(self).same_bookkeeping(*old(self)),
            final(self).storage == old(self).storage,
            match r {
                Ok(id) => {
                    &&& id == old(self).next_node_id()
                    &&& final(self).nodes@.len() == old(self).nodes@.len() + 1
                    &&& final(self).node(id) matches Some(n) && n == new_symlink_node(id, n.times, target@, uid, gid)
                        && fresh_times(n.times)
                    &&& forall|k: u64| k != id ==> final(self).node(k) == old(self).node(k)
                },
                Err(e) => e == FsError::NoSpace && !old(self).can_allocate_node() && final(self).nodes@
                    == old(self).nodes@,
            },
    {
        let id = match self.reserve_node_id() {
            Some(id) => id,
            None => return Err(FsError::NoSpace),
        };
        let now = current_timestamp();
        let node = Node {
            id,
            kind: NodeKind::Symlink { target },
            times: times_at(now),
            mode: 0o777,
            uid,
            gid,
            xattrs: Vec::new(),
        };
        assert(node@.xattrs =~= Seq::empty());
        self.put_node(node);
        Ok(id)
    }

    /// Delivers `event` to every subscriber, in subscription order, when
    /// event tracking is enabled; the deliveries are added to the log.
    pub(crate) fn emit_event(&mut self, event: EventKind)
        ensures
            *final(self) == (FsCore {
                delivered: Ghost(old(self).delivered@ + old(self).notices(super::event_view(event))),
                ..*old(self)
            }),
    {
        let ghost e = super::event_view(event);
        if !self.config.track_events {
            assert(self.notices(e) =~= Seq::empty());
            assert(self.delivered@ + self.notices(e) =~= self.delivered@);
            return;
        }
        if !self.config.track_events {
            return;
        }
        let mut i: usize = 0;
        while i < self.sinks.len()
            invariant
                i <= self.sinks@.len(),
                *self == *old(self),
            decreases self.sinks@.len() - i,
        {
            self.sinks[i].on_event(&event);
            i = i + 1;
        }
        self.delivered = Ghost(self.delivered@ + self.notices(e));
    }
}

} // verus!
