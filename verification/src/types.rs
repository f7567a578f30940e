//! Core type definitions shared by the filesystem core and its adapters.

use vstd::prelude::*;

verus! {

/// Opaque snapshot identifier.
#[derive(Clone, Copy, Debug, Hash)]
pub struct SnapshotId(pub [u8; 16]);

impl SnapshotId {
    pub fn new(bytes: [u8; 16]) -> (r: Self)
        ensures
            r.0 == bytes,
    {
        SnapshotId(bytes)
    }
}

/// Bytes of the identifier generated from sequence number `seq`: `seq` in
/// little-endian order, then zeros, then a final 1 that sets generated
/// identifiers apart from the all-zero default branch.
pub open spec fn seq_id_bytes(seq: u64) -> Seq<u8> {
    seq![
        (seq & 0xff) as u8,
        ((seq >> 8u64) & 0xff) as u8,
        ((seq >> 16u64) & 0xff) as u8,
        ((seq >> 24u64) & 0xff) as u8,
        ((seq >> 32u64) & 0xff) as u8,
        ((seq >> 40u64) & 0xff) as u8,
        ((seq >> 48u64) & 0xff) as u8,
        ((seq >> 56u64) & 0xff) as u8,
        0u8,
        0u8,
        0u8,
        0u8,
        0u8,
        0u8,
        0u8,
        1u8,
    ]
}

/// Computes [`seq_id_bytes`].
pub fn id_from_seq(seq: u64) -> (r: [u8; 16])
    ensures
        r@ == seq_id_bytes(seq),
{
    let r = [
        (seq & 0xff) as u8,
        ((seq >> 8u64) & 0xff) as u8,
        ((seq >> 16u64) & 0xff) as u8,
        ((seq >> 24u64) & 0xff) as u8,
        ((seq >> 32u64) & 0xff) as u8,
        ((seq >> 40u64) & 0xff) as u8,
        ((seq >> 48u64) & 0xff) as u8,
        ((seq >> 56u64) & 0xff) as u8,
        0u8,
        0u8,
        0u8,
        0u8,
        0u8,
        0u8,
        0u8,
        1u8,
    ];
    assert(r@ =~= seq_id_bytes(seq));
    r
}

/// Distinct sequence numbers give distinct identifiers.
pub proof fn lemma_seq_id_bytes_injective(a: u64, b: u64)
    requires
        seq_id_bytes(a) == seq_id_bytes(b),
    ensures
        a == b,
{
    let x = seq_id_bytes(a);
    let y = seq_id_bytes(b);
    assert(x[0] == y[0] && x[1] == y[1] && x[2] == y[2] && x[3] == y[3]);
    assert(x[4] == y[4] && x[5] == y[5] && x[6] == y[6] && x[7] == y[7]);
    assert(a == b) by (bit_vector)
        requires
            (a & 0xff) as u8 == (b & 0xff) as u8,
            ((a >> 8u64) & 0xff) as u8 == ((b >> 8u64) & 0xff) as u8,
            ((a >> 16u64) & 0xff) as u8 == ((b >> 16u64) & 0xff) as u8,
            ((a >> 24u64) & 0xff) as u8 == ((b >> 24u64) & 0xff) as u8,
            ((a >> 32u64) & 0xff) as u8 == ((b >> 32u64) & 0xff) as u8,
            ((a >> 40u64) & 0xff) as u8 == ((b >> 40u64) & 0xff) as u8,
            ((a >> 48u64) & 0xff) as u8 == ((b >> 48u64) & 0xff) as u8,
            ((a >> 56u64) & 0xff) as u8 == ((b >> 56u64) & 0xff) as u8,
    ;
}

/// Compares two 16-byte identifiers.
pub fn id_bytes_eq(a: &[u8; 16], b: &[u8; 16]) -> (r: bool)
    ensures
        r == (a@ == b@),
{
    let mut i: usize = 0;
    while i < 16
        invariant
            i <= 16,
            a@.len() == 16,
            b@.len() == 16,
            forall|j: int| 0 <= j < i ==> a@[j] == b@[j],
        decreases 16 - i,
    {
        if a[i] != b[i] {
            return false;
        }
        i = i + 1;
    }
    assert(a@ =~= b@);
    true
}

impl PartialEq for SnapshotId {
    fn eq(&self, other: &Self) -> (r: bool) {
        id_bytes_eq(&self.0, &other.0)
    }
}

impl vstd::std_specs::cmp::PartialEqSpecImpl for SnapshotId {
    open spec fn obeys_eq_spec() -> bool {
        true
    }

    open spec fn eq_spec(&self, other: &SnapshotId) -> bool {
        self.0@ == other.0@
    }
}

impl Eq for SnapshotId {}

/// Opaque branch identifier.
#[derive(Clone, Copy, Debug, Hash)]
pub struct BranchId(pub [u8; 16]);

impl BranchId {
    /// The branch every process sees until it is bound to another one: all bytes zero.
    pub fn default_branch() -> (r: Self)
        ensures
            r.0@ == Seq::new(16, |i: int| 0u8),
    {
        let r = BranchId([0u8, 0u8, 0u8, 0u8, 0u8, 0u8, 0u8, 0u8, 0u8, 0u8, 0u8, 0u8, 0u8, 0u8, 0u8, 0u8]);
        assert(r.0@ =~= Seq::new(16, |i: int| 0u8));
        r
    }

    pub fn new(bytes: [u8; 16]) -> (r: Self)
        ensures
            r.0 == bytes,
    {
        BranchId(bytes)
    }
}

impl PartialEq for BranchId {
    fn eq(&self, other: &Self) -> (r: bool) {
        id_bytes_eq(&self.0, &other.0)
    }
}

impl vstd::std_specs::cmp::PartialEqSpecImpl for BranchId {
    open spec fn obeys_eq_spec() -> bool {
        true
    }

    open spec fn eq_spec(&self, other: &BranchId) -> bool {
        self.0@ == other.0@
    }
}

impl Eq for BranchId {}

/// Opaque handle identifier.
#[derive(Clone, Copy, Debug, PartialEq, Eq, Structural, Hash)]
pub struct HandleId(pub u64);

impl HandleId {
    pub fn new(id: u64) -> (r: Self)
        ensures
            r.0 == id,
    {
        HandleId(id)
    }
}

/// Content identifier for the storage backend.
#[derive(Clone, Copy, Debug, PartialEq, Eq, Structural, Hash)]
pub struct ContentId(pub u64);

impl ContentId {
    pub fn new(id: u64) -> (r: Self)
        ensures
            r.0 == id,
    {
        ContentId(id)
    }
}

/// Identifier of a process registered with the core.
#[derive(Clone, Copy, Debug, PartialEq, Eq, Structural, Hash)]
pub struct PID(pub u32);

impl PID {
    pub fn new(pid: u32) -> (r: Self)
        ensures
            r.0 == pid,
    {
        PID(pid)
    }
}

/// Identity a registered process acts with.
#[derive(Clone, Copy, Debug, PartialEq, Eq, Structural)]
pub struct User {
    pub uid: u32,
    pub gid: u32,
}

/// Identifier of an event subscription.
#[derive(Clone, Copy, Debug, PartialEq, Eq, Structural, Hash)]
pub struct SubscriptionId(pub u64);

impl SubscriptionId {
    pub fn new(id: u64) -> (r: Self)
        ensures
            r.0 == id,
    {
        SubscriptionId(id)
    }
}

/// File timestamps.
#[derive(Clone, Copy, Debug, PartialEq, Eq, Structural)]
pub struct FileTimes {
    pub atime: i64,
    pub mtime: i64,
    pub ctime: i64,
    pub birthtime: i64,
}

/// Permissions of one class (user, group or other).
#[derive(Clone, Copy, Debug, PartialEq, Eq, Structural)]
pub struct FileMode {
    pub read: bool,
    pub write: bool,
    pub execute: bool,
}

/// File attributes.
#[derive(Clone, Copy, Debug)]
pub struct Attributes {
    pub len: u64,
    pub times: FileTimes,
    pub uid: u32,
    pub gid: u32,
    pub is_dir: bool,
    pub is_symlink: bool,
    pub mode_user: FileMode,
    pub mode_group: FileMode,
    pub mode_other: FileMode,
}

/// Directory entry information.
#[derive(Clone, Debug)]
pub struct DirEntry {
    pub name: String,
    pub is_dir: bool,
    pub is_symlink: bool,
    pub len: u64,
}

/// Extended attribute entry.
#[derive(Clone, Debug)]
pub struct XattrEntry {
    pub name: String,
    pub value: Vec<u8>,
}

/// Stream specification (alternate data streams).
#[derive(Clone, Debug)]
pub struct StreamSpec {
    pub name: String,
}

/// Share mode for Windows compatibility.
#[derive(Clone, Copy, Debug, PartialEq, Eq, Structural)]
pub enum ShareMode {
    Read,
    Write,
    Delete,
}

/// File open options.
#[derive(Clone, Debug)]
pub struct OpenOptions {
    pub read: bool,
    pub write: bool,
    pub create: bool,
    pub truncate: bool,
    pub append: bool,
    pub share: Vec<ShareMode>,
    pub stream: Option<String>,
}

/// Mathematical value of [`OpenOptions`].
pub struct OpenOptionsView {
    pub read: bool,
    pub write: bool,
    pub create: bool,
    pub truncate: bool,
    pub append: bool,
    pub share: Seq<ShareMode>,
    pub stream: Option<Seq<char>>,
}

impl View for OpenOptions {
    type V = OpenOptionsView;

    open spec fn view(&self) -> OpenOptionsView {
        OpenOptionsView {
            read: self.read,
            write: self.write,
            create: self.create,
            truncate: self.truncate,
            append: self.append,
            share: self.share@,
            stream: match self.stream {
                Some(s) => Some(s@),
                None => None,
            },
        }
    }
}

impl OpenOptions {
    /// A copy with the same view.
    pub fn copy(&self) -> (r: OpenOptions)
        ensures
            r@ == self@,
    {
        let mut share: Vec<ShareMode> = Vec::new();
        let mut i: usize = 0;
        while i < self.share.len()
            invariant
                i <= self.share@.len(),
                share@ == self.share@.subrange(0, i as int),
            decreases self.share@.len() - i,
        {
            share.push(self.share[i]);
            i = i + 1;
        }
        assert(share@ =~= self.share@);
        let stream = match &self.stream {
            Some(s) => Some(s.clone()),
            None => None,
        };
        OpenOptions {
            read: self.read,
            write: self.write,
            create: self.create,
            truncate: self.truncate,
            append: self.append,
            share,
            stream,
        }
    }
}

/// Lock kind for byte-range locking.
#[derive(Clone, Copy, Debug, PartialEq, Eq, Structural)]
pub enum LockKind {
    Shared,
    Exclusive,
}

/// Byte range lock specification.
#[derive(Clone, Copy, Debug, PartialEq, Eq, Structural)]
pub struct LockRange {
    pub offset: u64,
    pub len: u64,
    pub kind: LockKind,
}

/// Fallocate mode (optional operation).
#[derive(Clone, Copy, Debug, PartialEq, Eq, Structural)]
pub enum FallocateMode {
    Allocate,
    PunchHole,
}

/// Information about a branch.
#[derive(Clone, Debug)]
pub struct BranchInfo {
    pub id: BranchId,
    pub parent: Option<SnapshotId>,
    pub name: Option<String>,
}

/// Core statistics.
#[derive(Clone, Copy, Debug)]
pub struct FsStats {
    pub branches: u32,
    pub snapshots: u32,
    pub open_handles: u32,
    pub bytes_in_memory: u64,
    pub bytes_spilled: u64,
}

/// Events reported to subscribers.
#[derive(Clone, Debug)]
pub enum EventKind {
    Created { path: String },
    Removed { path: String },
    SnapshotCreated { id: SnapshotId, name: Option<String> },
    BranchCreated { id: BranchId, name: Option<String> },
}

/// Receiver of filesystem events, implemented by users of the core.
pub trait EventSink: Send + Sync {
    fn on_event(&self, evt: &EventKind);
}

} // verus!
