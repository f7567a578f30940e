//! Handles: open, read, write, close.

use vstd::prelude::*;

use crate::error::{FsError, FsResult};
use crate::path::{path_names, path_parts};
use crate::seqs::{lemma_first_match_at, lemma_first_match_none};
use crate::storage::{read_count, StorageBackend};
use crate::types::{HandleId, OpenOptions, OpenOptionsView, ShareMode, PID};

use super::entries::fresh_handle;
use super::resolve::names_view;
use super::{handle_with, stream_index, stream_named, streams_of, FsCore, Handle, KindV, Node, NodeKind, Stream, StreamV};

verus! {

/// Name of the stream a handle reads and writes ("" for the unnamed stream).
pub open spec fn stream_name_of(o: OpenOptionsView) -> Seq<char> {
    match o.stream {
        Some(s) => s,
        None => Seq::empty(),
    }
}

/// An existing open handle `h` forbids opening with `o` (Windows share modes):
/// it is on the same node, not marked deleted, and does not share an access `o` asks for.
pub open spec fn share_blocks(h: Handle, node: u64, o: OpenOptionsView) -> bool {
    &&& h.node_id == node
    &&& !h.deleted
    &&& ((o.read && !h.options@.share.contains(ShareMode::Read)) || (o.write && !h.options@.share.contains(
        ShareMode::Write,
    )))
}

/// Stream list after writing `len` bytes at `off` into stream `name`, now held
/// by content `c`: the stream is updated in place, or appended when missing.
pub open spec fn streams_after_write(streams: Seq<StreamV>, name: Seq<char>, c: u64, off: u64, len: nat) -> Seq<StreamV> {
    match stream_index(streams, name) {
        Some(i) => {
            let old_size = streams[i].size;
            let end = off + len;
            streams.update(
                i,
                StreamV { name, content: c, size: if old_size >= end { old_size } else { end as u64 } },
            )
        },
        None => streams.push(StreamV { name, content: c, size: (off + len) as u64 }),
    }
}

impl FsCore {
    /// Some open handle forbids opening `node` with `o`.
    pub open spec fn share_conflict(self, node: u64, o: OpenOptionsView) -> bool {
        exists|i: int| 0 <= i < self.handles@.len() && share_blocks(#[trigger] self.handles@[i], node, o)
    }

    /// Node `pid` may open at `p` with `o`: the path resolves to an existing node
    /// granting the requested read/write access, and no open handle forbids it.
    pub open spec fn open_target(self, pid: u32, p: Seq<char>, o: OpenOptionsView) -> Result<u64, FsError> {
        match self.resolve(pid, path_names(p)) {
            Err(e) => Err(e),
            Ok((id, _)) => match self.node(id) {
                None => Err(FsError::NotFound),
                Some(n) => {
                    if !self.access_ok(self.user_of(pid), n, o.read, o.write, false) {
                        Err(FsError::AccessDenied)
                    } else if self.share_conflict(id, o) {
                        Err(FsError::AccessDenied)
                    } else {
                        Ok(id)
                    }
                },
            },
        }
    }

    /// Result of opening: a new handle on `node` was added.
    pub open spec fn handle_added(self, old: FsCore, h: HandleId, node: u64, o: OpenOptionsView) -> bool {
        &&& h.0 == old.next_handle_id
        &&& self.next_handle_id == old.next_handle_id + 1
        &&& self.handles@.len() == old.handles@.len() + 1
        &&& self.handles@.drop_last() == old.handles@
        &&& fresh_handle(self.handles@.last(), h.0, node, o)
        &&& self.nodes == old.nodes
        &&& self.storage == old.storage
        &&& self.same_registry(old)
    }

    /// Whether opening `node` with `options` conflicts with a handle already open.
    pub fn share_mode_conflicts(&self, node: u64, options: &OpenOptions) -> (r: bool)
        ensures
            r == self.share_conflict(node, options@),
    {
        let mut i: usize = 0;
        while i < self.handles.len()
            invariant
                i <= self.handles@.len(),
                forall|j: int| 0 <= j < i ==> !share_blocks(#[trigger] self.handles@[j], node, options@),
            decreases self.handles@.len() - i,
        {
            let h = &self.handles[i];
            if h.node_id == node && !h.deleted {
                let shares_read = share_has(&h.options.share, ShareMode::Read);
                let shares_write = share_has(&h.options.share, ShareMode::Write);
                if (options.read && !shares_read) || (options.write && !shares_write) {
                    assert(share_blocks(self.handles@[i as int], node, options@));
                    return true;
                }
            }
            i = i + 1;
        }
        false
    }

    /// Adds a handle on `node` opened with `opts`.
    fn add_handle(&mut self, node: u64, opts: &OpenOptions) -> (h: HandleId)
        requires
            old(self).wf(),
            old(self).can_allocate_handle(),
        ensures
            final(self).wf(),
            final(self).handle_added(*old(self), h, node, opts@),
    {
        let hid = HandleId::new(self.next_handle_id);
        self.next_handle_id = self.next_handle_id + 1;
        let options = opts.copy();
        let ghost before = self.handles@;
        self.handles.push(Handle { id: hid, node_id: node, position: 0, options, deleted: false });
        assert(self.handles@.drop_last() =~= before);
        assert forall|i: int, j: int| 0 <= i < j < self.handles@.len() implies (#[trigger] self.handles@[i]).id
            != (#[trigger] self.handles@[j]).id by {
            if j == before.len() {
                assert(self.handles@[i] == before[i]);
            } else {
                assert(self.handles@[i] == before[i] && self.handles@[j] == before[j]);
            }
        }
        hid
    }

    /// Outcome `r` of opening `p` with `o` for `pid`, `self` after `old`: on
    /// success a handle was added on the node that
    /// [`open_target`](Self::open_target) names; on failure nothing changed and
    /// the error is the target's, or `NoSpace` when handle ids ran out.
    pub open spec fn opened(self, old: FsCore, pid: u32, p: Seq<char>, o: OpenOptionsView, r: FsResult<HandleId>) -> bool {
        match r {
            Ok(h) => old.open_target(pid, p, o) matches Ok(node) && self.handle_added(old, h, node, o),
            Err(e) => {
                &&& (old.open_target(pid, p, o) == Err::<u64, FsError>(e) || (e == FsError::NoSpace
                    && old.open_target(pid, p, o) is Ok && !old.can_allocate_handle()))
                &&& self == old
            },
        }
    }

    /// Opens the node at `path` for process `pid`.
    pub fn open(&mut self, pid: &PID, path: &str, opts: &OpenOptions) -> (r: FsResult<HandleId>)
        requires
            old(self).wf(),
        ensures
            final(self).delivered == old(self).delivered,
            final(self).wf(),
            final(self).opened(*old(self), pid.0, path@, opts@, r),
    {
        let parts = path_parts(path);
        assert(names_view(parts.names@) == path_names(path@));
        let (node, _) = match self.resolve_path(pid.0, &parts.names) {
            Ok(x) => x,
            Err(e) => return Err(e),
        };
        let n = match self.get_node(node) {
            Some(n) => n,
            None => return Err(FsError::NotFound),
        };
        let user = self.user_for(pid.0);
        if !self.check_access(user, n, opts.read, opts.write, false) {
            return Err(FsError::AccessDenied);
        }
        if self.share_mode_conflicts(node, opts) {
            return Err(FsError::AccessDenied);
        }
        if self.next_handle_id == u64::MAX {
            return Err(FsError::NoSpace);
        }
        Ok(self.add_handle(node, opts))
    }

    /// Opens node `node_id` directly, without a path (no permission check).
    pub fn open_by_id(&mut self, node_id: u64, opts: &OpenOptions) -> (r: FsResult<HandleId>)
        requires
            old(self).wf(),
        ensures
            final(self).delivered == old(self).delivered,
            final(self).wf(),
            match r {
                Ok(h) => {
                    &&& old(self).node(node_id) is Some
                    &&& !old(self).share_conflict(node_id, opts@)
                    &&& final(self).handle_added(*old(self), h, node_id, opts@)
                },
                Err(e) => {
                    &&& (old(self).node(node_id) is None ==> e == FsError::NotFound)
                    &&& (old(self).node(node_id) is Some && old(self).share_conflict(node_id, opts@) ==> e
                        == FsError::AccessDenied)
                    &&& (old(self).node(node_id) is Some && !old(self).share_conflict(node_id, opts@) ==> e
                        == FsError::NoSpace && !old(self).can_allocate_handle())
                    &&& *final(self) == *old(self)
                },
            },
    {
        if self.get_node(node_id).is_none() {
            return Err(FsError::NotFound);
        }
        if self.share_mode_conflicts(node_id, opts) {
            return Err(FsError::AccessDenied);
        }
        if self.next_handle_id == u64::MAX {
            return Err(FsError::NoSpace);
        }
        Ok(self.add_handle(node_id, opts))
    }

    /// Position of the handle `h`.
    pub fn find_handle(&self, h: HandleId) -> (r: Option<usize>)
        ensures
            match r {
                Some(i) => self.handle_index(h) == Some(i as int) && i < self.handles@.len(),
                None => self.handle_index(h) is None,
            },
    {
        let mut i: usize = 0;
        while i < self.handles.len()
            invariant
                i <= self.handles@.len(),
                forall|j: int| 0 <= j < i ==> !handle_with(h)(#[trigger] self.handles@[j]),
            decreases self.handles@.len() - i,
        {
            if self.handles[i].id == h {
                proof {
                    lemma_first_match_at(self.handles@, handle_with(h), i as int);
                }
                return Some(i);
            }
            i = i + 1;
        }
        proof {
            lemma_first_match_none(self.handles@, handle_with(h));
        }
        None
    }

    /// What a read through `h` reads: the node, the stream's content id.
    pub open spec fn read_source(self, h: HandleId) -> Result<u64, FsError> {
        match self.handle_index(h) {
            None => Err(FsError::InvalidArgument),
            Some(i) => {
                let hd = self.handles@[i];
                if !hd.options.read {
                    Err(FsError::AccessDenied)
                } else {
                    match self.node(hd.node_id) {
                        None => Err(FsError::NotFound),
                        Some(n) => match n.kind {
                            KindV::File { streams } => match stream_index(streams, stream_name_of(hd.options@)) {
                                Some(si) => Ok(streams[si].content),
                                None => Err(FsError::NotFound),
                            },
                            KindV::Dir { .. } => Err(FsError::IsADirectory),
                            KindV::Symlink { .. } => Err(FsError::InvalidArgument),
                        },
                    }
                }
            },
        }
    }

    /// Reads from the stream of handle `handle_id` at `offset` into `buf`.
    pub fn read(&self, pid: &PID, handle_id: HandleId, offset: u64, buf: &mut [u8]) -> (r: FsResult<usize>)
        requires
            self.wf(),
        ensures
            match (r, self.read_source(handle_id)) {
                (Ok(n), Ok(c)) => {
                    let data = self.content(c).unwrap();
                    &&& self.content(c) is Some
                    &&& n == read_count(data, offset as int, old(buf)@.len() as int)
                    &&& final(buf)@.len() == old(buf)@.len()
                    &&& forall|k: int| 0 <= k < n ==> #[trigger] final(buf)@[k] == data[offset + k]
                    &&& forall|k: int| n <= k < old(buf)@.len() ==> #[trigger] final(buf)@[k] == old(buf)@[k]
                },
                (Err(e), Err(e2)) => e == e2 && final(buf)@ == old(buf)@,
                _ => false,
            },
    {
        let i = match self.find_handle(handle_id) {
            Some(i) => i,
            None => return Err(FsError::InvalidArgument),
        };
        let hd = &self.handles[i];
        if !hd.options.read {
            return Err(FsError::AccessDenied);
        }
        let n = match self.get_node(hd.node_id) {
            Some(n) => n,
            None => return Err(FsError::NotFound),
        };
        match &n.kind {
            NodeKind::File { streams } => {
                let name = stream_name(&hd.options);
                match find_stream_index(streams, &name) {
                    Some(si) => {
                        let c = streams[si].content;
                        proof {
                            assert(streams_of(n@)[si as int].content == c.0);
                            assert(super::node_in(self.nodes@, hd.node_id) == Some(n@));
                        }
                        self.storage.read(c, offset, buf)
                    },
                    None => Err(FsError::NotFound),
                }
            },
            NodeKind::Directory { .. } => Err(FsError::IsADirectory),
            NodeKind::Symlink { .. } => Err(FsError::InvalidArgument),
        }
    }
}

/// Whether `share` lists `m`.
fn share_has(share: &Vec<ShareMode>, m: ShareMode) -> (r: bool)
    ensures
        r == share@.contains(m),
{
    let mut i: usize = 0;
    while i < share.len()
        invariant
            i <= share@.len(),
            forall|j: int| 0 <= j < i ==> share@[j] != m,
        decreases share@.len() - i,
    {
        if share[i] == m {
            return true;
        }
        i = i + 1;
    }
    false
}

/// Name of the stream a handle opened with `o` uses.
pub fn stream_name(o: &OpenOptions) -> (s: String)
    ensures
        s@ == stream_name_of(o@),
{
    match &o.stream {
        Some(s) => s.clone(),
        None => String::new(),
    }
}

/// Position of the stream named `name`.
pub fn find_stream_index(streams: &Vec<Stream>, name: &String) -> (r: Option<usize>)
    ensures
        match r {
            Some(i) => stream_index(streams@.map_values(|s: Stream| s@), name@) == Some(i as int) && i
                < streams@.len(),
            None => stream_index(streams@.map_values(|s: Stream| s@), name@) is None,
        },
{
    let ghost sv = streams@.map_values(|s: Stream| s@);
    let mut i: usize = 0;
    while i < streams.len()
        invariant
            i <= streams@.len(),
            sv == streams@.map_values(|s: Stream| s@),
            forall|j: int| 0 <= j < i ==> !stream_named(name@)(#[trigger] sv[j]),
        decreases streams@.len() - i,
    {
        if streams[i].name == *name {
            proof {
                lemma_first_match_at(sv, stream_named(name@), i as int);
            }
            return Some(i);
        }
        i = i + 1;
    }
    proof {
        lemma_first_match_none(sv, stream_named(name@));
    }
    None
}

} // verus!
