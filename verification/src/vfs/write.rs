//! Writing through a handle. Every write goes to a fresh copy of the stream's
//! content, so content shared with snapshots and other branches never changes.

use vstd::prelude::*;

use crate::clock::current_timestamp;
use crate::error::{FsError, FsResult};
use crate::storage::{write_bytes, StorageBackend};
use crate::types::{FileTimes, HandleId, PID};
use super::io::{find_stream_index, stream_name, stream_name_of, streams_after_write};
use super::{stream_index, FsCore, KindV, Node, NodeKind, NodeV, Stream, StreamV};

verus! {

impl FsCore {
    /// What a write through `h` by process `pid` works on: the file node, its
    /// streams and the stream name. The handle must exist and be writable, the
    /// branch of `pid` must exist, and the node must be a file.
    pub open spec fn write_target(self, pid: u32, h: HandleId) -> Result<(u64, Seq<StreamV>, Seq<char>), FsError> {
        match self.handle_index(h) {
            None => Err(FsError::InvalidArgument),
            Some(i) => {
                let hd = self.handles@[i];
                if !hd.options.write {
                    Err(FsError::AccessDenied)
                } else if self.branch_index(self.branch_of(pid)) is None {
                    Err(FsError::NotFound)
                } else {
                    match self.node(hd.node_id) {
                        None => Err(FsError::NotFound),
                        Some(n) => match n.kind {
                            KindV::File { streams } => Ok((hd.node_id, streams, stream_name_of(hd.options@))),
                            KindV::Dir { .. } => Err(FsError::IsADirectory),
                            KindV::Symlink { .. } => Err(FsError::InvalidArgument),
                        },
                    }
                }
            },
        }
    }

    /// Content id the written stream ends up with: a copy made at the next
    /// storage id, or, for a new stream, one id later (after its empty content).
    pub open spec fn written_content(self, streams: Seq<StreamV>, name: Seq<char>) -> u64 {
        if stream_index(streams, name) is Some {
            self.storage.next_id
        } else {
            (self.storage.next_id + 1) as u64
        }
    }

    /// Storage after writing `d` at `off` into stream `name`: the stream's bytes
    /// are copied to a new id and written there; a missing stream first gets
    /// empty content of its own.
    pub open spec fn storage_after_write(self, streams: Seq<StreamV>, name: Seq<char>, off: u64, d: Seq<u8>) -> Map<u64, Seq<u8>> {
        let c0 = self.storage.next_id;
        match stream_index(streams, name) {
            Some(i) => self.storage.content_map().insert(
                c0,
                write_bytes(self.content(streams[i].content).unwrap(), off as int, d),
            ),
            None => self.storage.content_map().insert(c0, Seq::empty()).insert(
                (c0 + 1) as u64,
                write_bytes(Seq::empty(), off as int, d),
            ),
        }
    }

    /// `self` is `old` after writing `d` at `off` through handle `h` for process
    /// `pid`: the stream's content is replaced by a written copy, its size
    /// covers the write, the file's modification and change times are equal
    /// (now), and nothing else changes.
    pub open spec fn write_done(self, old: FsCore, pid: u32, h: HandleId, off: u64, d: Seq<u8>) -> bool {
        &&& old.write_target(pid, h) matches Ok((node, streams, name))
        &&& old.can_allocate_content()
        &&& self.storage.content_map() == old.storage_after_write(streams, name, off, d)
        &&& old.node(node) matches Some(f) && self.node(node) matches Some(m) && m == NodeV {
            kind: KindV::File {
                streams: streams_after_write(streams, name, old.written_content(streams, name), off, d.len()),
            },
            times: FileTimes { mtime: m.times.mtime, ctime: m.times.mtime, ..f.times },
            ..f
        }
        &&& forall|k: u64| k != node ==> self.node(k) == old.node(k)
        &&& self.nodes@.len() == old.nodes@.len()
        &&& self.same_bookkeeping(old)
    }

    /// Whether the storage can hand out the two ids a write may need.
    pub open spec fn can_allocate_content(self) -> bool {
        self.storage.next_id + 2 < u64::MAX
    }

    /// Outcome `r` of writing `data` at `offset` through `h` for `pid`, `self`
    /// after `old`: on success all of `data` was written as
    /// [`write_done`](Self::write_done) says; on failure nothing changed and the
    /// error is the target's, or `NoSpace` when content ids ran out.
    pub open spec fn written(self, old: FsCore, pid: u32, h: HandleId, offset: u64, data: Seq<u8>, r: FsResult<usize>) -> bool {
        match r {
            Ok(n) => n == data.len() && self.write_done(old, pid, h, offset, data),
            Err(e) => {
                &&& (old.write_target(pid, h) == Err::<(u64, Seq<StreamV>, Seq<char>), FsError>(e)
                    || (e == FsError::NoSpace && old.write_target(pid, h) is Ok
                    && !old.can_allocate_content()))
                &&& self == old
            },
        }
    }

    /// Writes `data` at `offset` into the stream of handle `handle_id`. The
    /// stream is created when missing; its size grows to cover the write, and
    /// the file's modification and change times are set to the clock's
    /// current reading (see [`write_at`](Self::write_at)).
    pub fn write(&mut self, pid: &PID, handle_id: HandleId, offset: u64, data: &[u8]) -> (r: FsResult<usize>)
        requires
            old(self).wf(),
            offset + data@.len() <= usize::MAX,
        ensures
            final(self).delivered == old(self).delivered,
            final(self).wf(),
            final(self).written(*old(self), pid.0, handle_id, offset, data@, r),
    {
        let now = current_timestamp();
        self.write_at(pid, handle_id, offset, data, now)
    }

    /// Writes `data` at `offset` into the stream of handle `handle_id` at
    /// time `now`: as [`written`](Self::written) says, with the file's
    /// modification and change times set to `now`.
    pub fn write_at(&mut self, pid: &PID, handle_id: HandleId, offset: u64, data: &[u8], now: i64) -> (r: FsResult<usize>)
        requires
            old(self).wf(),
            offset + data@.len() <= usize::MAX,
        ensures
            final(self).delivered == old(self).delivered,
            final(self).wf(),
            final(self).written(*old(self), pid.0, handle_id, offset, data@, r),
            r is Ok ==> (old(self).write_target(pid.0, handle_id) matches Ok((node, _, _)) && final(self).node(node) matches Some(
                m,
            ) && m.times.mtime == now),
    {
        let i = match self.find_handle(handle_id) {
            Some(i) => i,
            None => return Err(FsError::InvalidArgument),
        };
        if !self.handles[i].options.write {
            return Err(FsError::AccessDenied);
        }
        let b = self.current_branch_for_process(pid.0);
        if self.find_branch(&b).is_none() {
            return Err(FsError::NotFound);
        }
        let node_id = self.handles[i].node_id;
        let name = stream_name(&self.handles[i].options);
        let ghost sv: Seq<StreamV>;
        let existing: Option<(usize, crate::types::ContentId, u64)> = match self.get_node(node_id) {
            None => return Err(FsError::NotFound),
            Some(n) => match &n.kind {
                NodeKind::File { streams } => {
                    proof {
                        sv = streams@.map_values(|s: Stream| s@);
                    }
                    match find_stream_index(streams, &name) {
                        Some(si) => {
                            proof {
                                assert(sv[si as int] == streams@[si as int]@);
                            }
                            Some((si, streams[si].content, streams[si].size))
                        },
                        None => None,
                    }
                },
                NodeKind::Directory { .. } => return Err(FsError::IsADirectory),
                NodeKind::Symlink { .. } => return Err(FsError::InvalidArgument),
            },
        };
        assert(match existing {
            Some((si, c, size)) => stream_index(sv, name@) == Some(si as int) && si < sv.len() && sv[si as int].content
                == c.0 && sv[si as int].size == size,
            None => stream_index(sv, name@) is None,
        });
        assert(old(self).node(node_id) matches Some(f) && f.kind == (KindV::File { streams: sv }));
        assert(old(self).write_target(pid.0, handle_id) == Ok::<(u64, Seq<StreamV>, Seq<char>), FsError>(
            (node_id, sv, name@),
        ));
        if self.storage.next_id >= u64::MAX - 2 {
            return Err(FsError::NoSpace);
        }
        let ghost c0 = self.storage.next_id;
        let empty: Vec<u8> = Vec::new();
        assert(empty@ =~= Seq::<u8>::empty());
        // Source content of the stream, created empty when the stream is new.
        let src = match existing {
            Some((si, c, _)) => {
                proof {
                    assert(super::node_in(self.nodes@, node_id) is Some);
                    assert(super::streams_of(super::node_in(self.nodes@, node_id).unwrap())[si as int].content == c.0);
                }
                c
            },
            None => {
                match self.storage.allocate(empty.as_slice()) {
                    Ok(c) => c,
                    Err(_) => return Err(FsError::NoSpace),
                }
            },
        };
        let ghost s1 = self.storage;
        assert(s1.content_map().contains_key(src.0));
        let copy = match self.storage.clone_cow(src) {
            Ok(c) => c,
            Err(_) => return Err(FsError::NoSpace),
        };
        let written = match self.storage.write(copy, offset, data) {
            Ok(n) => n,
            Err(_) => return Err(FsError::NotFound),
        };
        let ghost s3 = self.storage;
        proof {
            assert forall|x: u64| old(self).storage.content_map().contains_key(x) implies #[trigger] s3.content_map().contains_key(
                x,
            ) by {}
            (*self).lemma_storage_grew(*old(self));
            match existing {
                Some((si, c, _)) => {
                    assert(s3.content_map() =~= old(self).storage_after_write(sv, name@, offset, data@));
                },
                None => {
                    assert(s3.content_map() =~= old(self).storage_after_write(sv, name@, offset, data@));
                },
            }
        }
        let ghost s4 = *self;
        let n = match self.take_node(node_id) {
            Some(n) => n,
            None => return Err(FsError::NotFound),
        };
        let Node { id, kind, times, mode, uid, gid, xattrs } = n;
        let mut streams = match kind {
            NodeKind::File { streams } => streams,
            _ => Vec::new(),
        };
        let ghost before = streams@.map_values(|s: Stream| s@);
        assert(before == sv);
        match existing {
            Some((si, _, size)) => {
                let end = offset + written as u64;
                let new_size = if size >= end { size } else { end };
                streams.set(si, Stream { name, content: copy, size: new_size });
                assert(streams@.map_values(|s: Stream| s@) =~= streams_after_write(sv, name@, copy.0, offset, data@.len()));
            },
            None => {
                streams.push(Stream { name, content: copy, size: offset + written as u64 });
                assert(streams@.map_values(|s: Stream| s@) =~= streams_after_write(sv, name@, copy.0, offset, data@.len()));
            },
        }
        let new_times = FileTimes { atime: times.atime, mtime: now, ctime: now, birthtime: times.birthtime };
        let m = Node { id, kind: NodeKind::File { streams }, times: new_times, mode, uid, gid, xattrs };
        proof {
            let mv = m@;
            let ov = s4.node(node_id).unwrap();
            assert(s4.node(node_id) == old(self).node(node_id));
            assert(super::streams_of(ov) == sv);
            assert(self.storage == s4.storage);
            assert forall|k: int| 0 <= k < super::streams_of(mv).len() implies self.content(
                #[trigger] super::streams_of(mv)[k].content,
            ) is Some by {
                if super::streams_of(mv)[k].content != copy.0 {
                    assert(k < sv.len());
                    assert(super::streams_of(mv)[k] == super::streams_of(ov)[k]);
                    assert(s4.content(super::streams_of(super::node_in(s4.nodes@, node_id).unwrap())[k].content) is Some);
                }
            }
        }
        self.put_node(m);
        Ok(written)
    }
}

} // verus!
