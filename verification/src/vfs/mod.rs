//! The filesystem core: a node arena shared by branches and snapshots,
//! open handles, byte-range locks, process registration and branch binding.

use std::sync::Arc;
use vstd::prelude::*;

use crate::config::FsConfig;

use crate::seqs::first_match;
use crate::storage::InMemoryBackend;
use crate::types::{Attributes, BranchId, ContentId, EventKind, EventSink, FileMode, FileTimes, HandleId, LockRange, OpenOptions, SnapshotId, SubscriptionId, User};

pub mod arena;
pub mod branches;
pub mod byid;
pub mod clone;
pub mod entries;
pub mod io;
pub mod laws;
pub mod listing;
pub mod locks;
pub mod meta;
pub mod nodes;
pub mod perms;
pub mod procs;
pub mod remove;
pub mod resolve;
pub mod write;
pub mod xattrs;

verus! {

/// Entry of a directory.
pub struct DirChild {
    pub name: String,
    pub id: u64,
}

/// A data stream of a file ("" is the unnamed default stream).
pub struct Stream {
    pub name: String,
    pub content: ContentId,
    pub size: u64,
}

/// Extended attribute stored on a node.
pub struct Xattr {
    pub name: String,
    pub value: Vec<u8>,
}

/// Filesystem node types.
pub enum NodeKind {
    File { streams: Vec<Stream> },
    Directory { children: Vec<DirChild> },
    Symlink { target: String },
}

/// Filesystem node.
pub struct Node {
    pub id: u64,
    pub kind: NodeKind,
    pub times: FileTimes,
    pub mode: u32,
    pub uid: u32,
    pub gid: u32,
    pub xattrs: Vec<Xattr>,
}

/// Open file handle.
pub struct Handle {
    pub id: HandleId,
    pub node_id: u64,
    pub position: u64,
    pub options: OpenOptions,
    pub deleted: bool,
}

/// Snapshot: a recorded root of a tree.
pub struct Snapshot {
    pub id: SnapshotId,
    pub root_id: u64,
    pub name: Option<String>,
}

/// Branch: a writable tree.
pub struct Branch {
    pub id: BranchId,
    pub root_id: u64,
    pub parent_snapshot: Option<SnapshotId>,
    pub name: Option<String>,
}

/// Active byte-range lock.
#[derive(Clone, Copy)]
pub struct ActiveLock {
    pub node_id: u64,
    pub handle_id: HandleId,
    pub range: LockRange,
}

/// Identity a process registered with.
#[derive(Clone, Copy)]
pub struct ProcessRecord {
    pub pid: u32,
    pub ppid: u32,
    pub uid: u32,
    pub gid: u32,
}

/// Branch a process is bound to.
#[derive(Clone, Copy)]
pub struct ProcessBinding {
    pub pid: u32,
    pub branch: BranchId,
}

// ---------------------------------------------------------------- views

pub struct StreamV {
    pub name: Seq<char>,
    pub content: u64,
    pub size: u64,
}

pub enum KindV {
    File { streams: Seq<StreamV> },
    Dir { children: Seq<(Seq<char>, u64)> },
    Symlink { target: Seq<char> },
}

pub struct NodeV {
    pub id: u64,
    pub kind: KindV,
    pub times: FileTimes,
    pub mode: u32,
    pub uid: u32,
    pub gid: u32,
    pub xattrs: Seq<(Seq<char>, Seq<u8>)>,
}

impl View for Stream {
    type V = StreamV;

    open spec fn view(&self) -> StreamV {
        StreamV { name: self.name@, content: self.content.0, size: self.size }
    }
}

impl View for DirChild {
    type V = (Seq<char>, u64);

    open spec fn view(&self) -> (Seq<char>, u64) {
        (self.name@, self.id)
    }
}

impl View for Xattr {
    type V = (Seq<char>, Seq<u8>);

    open spec fn view(&self) -> (Seq<char>, Seq<u8>) {
        (self.name@, self.value@)
    }
}

impl View for NodeKind {
    type V = KindV;

    open spec fn view(&self) -> KindV {
        match self {
            NodeKind::File { streams } => KindV::File { streams: streams@.map_values(|s: Stream| s@) },
            NodeKind::Directory { children } => KindV::Dir {
                children: children@.map_values(|c: DirChild| c@),
            },
            NodeKind::Symlink { target } => KindV::Symlink { target: target@ },
        }
    }
}

impl View for Node {
    type V = NodeV;

    open spec fn view(&self) -> NodeV {
        NodeV {
            id: self.id,
            kind: self.kind@,
            times: self.times,
            mode: self.mode,
            uid: self.uid,
            gid: self.gid,
            xattrs: self.xattrs@.map_values(|x: Xattr| x@),
        }
    }
}

pub open spec fn opt_view(o: Option<String>) -> Option<Seq<char>> {
    match o {
        Some(s) => Some(s@),
        None => None,
    }
}

/// Streams of a file node (none for other nodes).
pub open spec fn streams_of(n: NodeV) -> Seq<StreamV> {
    match n.kind {
        KindV::File { streams } => streams,
        _ => Seq::empty(),
    }
}

pub open spec fn child_named(name: Seq<char>) -> spec_fn((Seq<char>, u64)) -> bool {
    |c: (Seq<char>, u64)| c.0 == name
}

pub open spec fn stream_named(name: Seq<char>) -> spec_fn(StreamV) -> bool {
    |s: StreamV| s.name == name
}

pub open spec fn xattr_named(name: Seq<char>) -> spec_fn((Seq<char>, Seq<u8>)) -> bool {
    |x: (Seq<char>, Seq<u8>)| x.0 == name
}

pub open spec fn binding_of(pid: u32) -> spec_fn(ProcessBinding) -> bool {
    |b: ProcessBinding| b.pid == pid
}

pub open spec fn record_of(pid: u32) -> spec_fn(ProcessRecord) -> bool {
    |p: ProcessRecord| p.pid == pid
}

pub open spec fn branch_with(b: Seq<u8>) -> spec_fn(Branch) -> bool {
    |x: Branch| x.id.0@ == b
}

pub open spec fn snapshot_with(s: Seq<u8>) -> spec_fn(Snapshot) -> bool {
    |x: Snapshot| x.id.0@ == s
}

pub open spec fn handle_with(h: HandleId) -> spec_fn(Handle) -> bool {
    |x: Handle| x.id == h
}

/// Index of the child named `name`.
pub open spec fn child_index(children: Seq<(Seq<char>, u64)>, name: Seq<char>) -> Option<int> {
    first_match(children, child_named(name))
}

/// Node id of the child named `name`.
pub open spec fn find_child(children: Seq<(Seq<char>, u64)>, name: Seq<char>) -> Option<u64> {
    match child_index(children, name) {
        Some(i) => Some(children[i].1),
        None => None,
    }
}

/// Index of the stream named `name`.
pub open spec fn stream_index(streams: Seq<StreamV>, name: Seq<char>) -> Option<int> {
    first_match(streams, stream_named(name))
}

/// Index of the extended attribute named `name`.
pub open spec fn xattr_index(xs: Seq<(Seq<char>, Seq<u8>)>, name: Seq<char>) -> Option<int> {
    first_match(xs, xattr_named(name))
}

/// Size of the unnamed stream of a file, 0 when it has none.
pub open spec fn default_stream_size(streams: Seq<StreamV>) -> u64 {
    match stream_index(streams, Seq::empty()) {
        Some(i) => streams[i].size,
        None => 0,
    }
}

/// Length reported for a node: the unnamed stream of a file, 0 for a
/// directory, the UTF-8 length of a symlink target.
pub open spec fn node_len(n: NodeV) -> u64 {
    match n.kind {
        KindV::File { streams } => default_stream_size(streams),
        KindV::Dir { .. } => 0,
        KindV::Symlink { target } => utf8_len(target),
    }
}

/// Number of bytes of the UTF-8 encoding of `s`.
pub open spec fn utf8_len(s: Seq<char>) -> u64 {
    (vstd::utf8::encode_utf8(s).len() as usize) as u64
}

/// Permission triple encoded in the three bits `bits`.
pub open spec fn mode_triple(bits: u32) -> FileMode {
    FileMode { read: (bits / 4) % 2 == 1, write: (bits / 2) % 2 == 1, execute: bits % 2 == 1 }
}

/// Attributes reported for a node.
pub open spec fn attributes_of(n: NodeV) -> Attributes {
    Attributes {
        len: node_len(n),
        times: n.times,
        uid: n.uid,
        gid: n.gid,
        is_dir: n.kind is Dir,
        is_symlink: n.kind is Symlink,
        mode_user: mode_triple((n.mode / 64) % 8),
        mode_group: mode_triple((n.mode / 8) % 8),
        mode_other: mode_triple(n.mode % 8),
    }
}

/// The node with id `id` in an arena, if it exists.
pub open spec fn node_in(nodes: Seq<Option<Node>>, id: u64) -> Option<NodeV> {
    if 1 <= id && id <= nodes.len() {
        match nodes[id - 1] {
            Some(n) => Some(n@),
            None => None,
        }
    } else {
        None
    }
}

/// No two entries of a directory have the same name.
pub open spec fn names_distinct(children: Seq<(Seq<char>, u64)>) -> bool {
    forall|i: int, j: int| 0 <= i < j < children.len() ==> (#[trigger] children[i]).0 != (#[trigger] children[j]).0
}

/// A directory node has entries with distinct names (other nodes always qualify).
pub open spec fn node_names_ok(n: NodeV) -> bool {
    n.kind matches KindV::Dir { children } ==> names_distinct(children)
}

/// Each node sits in the slot of its id, every stream of every file refers
/// to content held by `storage`, and no directory has two entries with the
/// same name.
pub open spec fn arena_wf(nodes: Seq<Option<Node>>, storage: InMemoryBackend) -> bool {
    &&& forall|i: int| 0 <= i < nodes.len() ==> (#[trigger] nodes[i] matches Some(n) ==> n.id == i + 1)
    &&& forall|id: u64, k: int|
        #![trigger streams_of(node_in(nodes, id).unwrap())[k]]
        node_in(nodes, id) is Some && 0 <= k < streams_of(node_in(nodes, id).unwrap()).len()
            ==> storage.content_of(streams_of(node_in(nodes, id).unwrap())[k].content) is Some
    &&& forall|id: u64| #[trigger] node_in(nodes, id) is Some ==> node_names_ok(node_in(nodes, id).unwrap())
}

/// The filesystem core. Node `i` lives in slot `i - 1` of `nodes`; ids are
/// never reused, so a removed node leaves an empty slot.
pub struct FsCore {
    pub config: FsConfig,
    pub storage: InMemoryBackend,
    pub nodes: Vec<Option<Node>>,
    pub snapshots: Vec<Snapshot>,
    pub branches: Vec<Branch>,
    pub handles: Vec<Handle>,
    pub next_handle_id: u64,
    pub next_subscription_id: u64,
    pub next_snapshot_seq: u64,
    pub next_branch_seq: u64,
    pub processes: Vec<ProcessRecord>,
    pub process_branches: Vec<ProcessBinding>,
    pub locks: Vec<ActiveLock>,
    pub subscription_ids: Vec<SubscriptionId>,
    pub sinks: Vec<Arc<dyn EventSink>>,
    /// Every event delivered so far, with the subscription it went to, in
    /// delivery order.
    pub delivered: Ghost<Seq<(SubscriptionId, EventV)>>,
}

/// Mathematical value of an event.
pub enum EventV {
    Created { path: Seq<char> },
    Removed { path: Seq<char> },
    SnapshotCreated { id: SnapshotId, name: Option<Seq<char>> },
    BranchCreated { id: BranchId, name: Option<Seq<char>> },
}

/// The value of event `e`.
pub open spec fn event_view(e: EventKind) -> EventV {
    match e {
        EventKind::Created { path } => EventV::Created { path: path@ },
        EventKind::Removed { path } => EventV::Removed { path: path@ },
        EventKind::SnapshotCreated { id, name } => EventV::SnapshotCreated { id, name: opt_view(name) },
        EventKind::BranchCreated { id, name } => EventV::BranchCreated { id, name: opt_view(name) },
    }
}

impl FsCore {
    /// The node with id `id`, if it exists.
    pub open spec fn node(self, id: u64) -> Option<NodeV> {
        node_in(self.nodes@, id)
    }

    /// Id the next allocated node receives.
    pub open spec fn next_node_id(self) -> int {
        self.nodes@.len() as int + 1
    }

    /// Content of storage id `c`.
    pub open spec fn content(self, c: u64) -> Option<Seq<u8>> {
        self.storage.content_of(c)
    }

    /// The deliveries of event `e` when it happens now: one to every
    /// subscription, in subscription order, when event tracking is on; none
    /// otherwise.
    pub open spec fn notices(self, e: EventV) -> Seq<(SubscriptionId, EventV)> {
        if self.config.track_events {
            self.subscription_ids@.map_values(|s: SubscriptionId| (s, e))
        } else {
            Seq::empty()
        }
    }

    /// `self` with the delivery log of `old`: what `self` is apart from the
    /// events delivered since `old`.
    pub open spec fn relog(self, old: FsCore) -> FsCore {
        FsCore { delivered: old.delivered, ..self }
    }

    pub open spec fn wf(self) -> bool {
        &&& self.storage.wf()
        &&& arena_wf(self.nodes@, self.storage)
        &&& self.subscription_ids@.len() == self.sinks@.len()
        &&& self.subscriptions_distinct()
        &&& self.ids_fresh()
        &&& self.handles_distinct()
    }

    /// Subscriptions have distinct ids, all below the next id to hand out.
    pub open spec fn subscriptions_distinct(self) -> bool {
        &&& forall|i: int| 0 <= i < self.subscription_ids@.len() ==> (#[trigger] self.subscription_ids@[i]).0
            < self.next_subscription_id
        &&& forall|i: int, j: int|
            0 <= i < j < self.subscription_ids@.len() ==> (#[trigger] self.subscription_ids@[i]) != (
            #[trigger] self.subscription_ids@[j])
    }

    /// Open handles have distinct ids, all below the next id to hand out.
    pub open spec fn handles_distinct(self) -> bool {
        &&& forall|i: int| 0 <= i < self.handles@.len() ==> (#[trigger] self.handles@[i]).id.0 < self.next_handle_id
        &&& forall|i: int, j: int|
            0 <= i < j < self.handles@.len() ==> (#[trigger] self.handles@[i]).id != (#[trigger] self.handles@[j]).id
    }

    /// No branch or snapshot has an id that a later creation will generate.
    pub open spec fn ids_fresh(self) -> bool {
        &&& forall|i: int, k: u64|
            0 <= i < self.branches@.len() && k >= self.next_branch_seq ==> (#[trigger] self.branches@[i]).id.0@
                != #[trigger] crate::types::seq_id_bytes(k)
        &&& forall|i: int, k: u64|
            0 <= i < self.snapshots@.len() && k >= self.next_snapshot_seq ==> (#[trigger] self.snapshots@[i]).id.0@
                != #[trigger] crate::types::seq_id_bytes(k)
    }

    /// Id bytes of the branch process `pid` works in: its binding, else the default branch.
    pub open spec fn branch_of(self, pid: u32) -> Seq<u8> {
        match first_match(self.process_branches@, binding_of(pid)) {
            Some(i) => self.process_branches@[i].branch.0@,
            None => default_branch_bytes(),
        }
    }

    /// Index of the branch whose id bytes are `b`.
    pub open spec fn branch_index(self, b: Seq<u8>) -> Option<int> {
        first_match(self.branches@, branch_with(b))
    }

    /// Index of the snapshot with id `s`.
    pub open spec fn snapshot_index(self, s: SnapshotId) -> Option<int> {
        first_match(self.snapshots@, snapshot_with(s.0@))
    }

    /// Index of the open handle with id `h`.
    pub open spec fn handle_index(self, h: HandleId) -> Option<int> {
        first_match(self.handles@, handle_with(h))
    }

    /// Index of the registration of `pid`.
    pub open spec fn process_index(self, pid: u32) -> Option<int> {
        first_match(self.processes@, record_of(pid))
    }

    /// Identity process `pid` acts with: its registration, else the configured default.
    pub open spec fn user_of(self, pid: u32) -> User {
        match self.process_index(pid) {
            Some(i) => User { uid: self.processes@[i].uid, gid: self.processes@[i].gid },
            None => User {
                uid: self.config.security.default_uid,
                gid: self.config.security.default_gid,
            },
        }
    }

    /// Root node of the tree process `pid` sees.
    pub open spec fn root_of(self, pid: u32) -> Option<u64> {
        match self.branch_index(self.branch_of(pid)) {
            Some(i) => Some(self.branches@[i].root_id),
            None => None,
        }
    }

    /// Everything but the node arena and the storage is unchanged.
    pub open spec fn same_bookkeeping(self, other: FsCore) -> bool {
        &&& self.same_registry(other)
        &&& self.handles == other.handles
        &&& self.next_handle_id == other.next_handle_id
    }

    /// Everything but the node arena, the storage and the branches (with their
    /// counter) is unchanged.
    pub open spec fn same_bookkeeping_but_branches(self, other: FsCore) -> bool {
        &&& self.config == other.config
        &&& self.snapshots == other.snapshots
        &&& self.handles == other.handles
        &&& self.next_handle_id == other.next_handle_id
        &&& self.next_subscription_id == other.next_subscription_id
        &&& self.next_snapshot_seq == other.next_snapshot_seq
        &&& self.processes == other.processes
        &&& self.process_branches == other.process_branches
        &&& self.locks == other.locks
        &&& self.subscription_ids == other.subscription_ids
        &&& self.sinks == other.sinks
        &&& self.delivered == other.delivered
    }

    /// Everything but the node arena, the storage and the open handles is unchanged.
    pub open spec fn same_registry(self, other: FsCore) -> bool {
        &&& self.config == other.config
        &&& self.snapshots == other.snapshots
        &&& self.branches == other.branches
        &&& self.next_subscription_id == other.next_subscription_id
        &&& self.next_snapshot_seq == other.next_snapshot_seq
        &&& self.next_branch_seq == other.next_branch_seq
        &&& self.processes == other.processes
        &&& self.process_branches == other.process_branches
        &&& self.locks == other.locks
        &&& self.subscription_ids == other.subscription_ids
        &&& self.sinks == other.sinks
        &&& self.delivered == other.delivered
    }
}

/// Id bytes of the default branch.
pub open spec fn default_branch_bytes() -> Seq<u8> {
    Seq::new(16, |i: int| 0u8)
}

} // verus!
