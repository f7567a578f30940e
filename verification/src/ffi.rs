//! The logic behind the C interface: filesystem instances numbered from 1,
//! result codes, the configuration and open options read from JSON, and the
//! fixed layouts of the attributes, statistics and link targets handed back.
//! Multi-byte numbers in those layouts are little-endian.

use std::collections::HashMap;
use vstd::bytes::{spec_u32_to_le_bytes, spec_u64_to_le_bytes, u32_to_le_bytes, u64_to_le_bytes};
use vstd::prelude::*;

use crate::config::{CachePolicy, CaseSensitivity, FsConfig, FsLimits, MemoryPolicy, SecurityPolicy};
use crate::error::FsError;
use crate::storage::read_count;
use crate::types::{BranchId, HandleId, OpenOptions, OpenOptionsView, SnapshotId, PID};
use crate::vfs::{attributes_of, opt_view, FsCore, KindV};
use vstd::utf8::encode_utf8;

verus! {

broadcast use vstd::std_specs::hash::group_hash_axioms;

/// Result codes of the C interface.
#[derive(Clone, Copy, Debug, PartialEq, Eq, Structural)]
pub enum AfResult {
    AfOk,
    AfErrNotFound,
    AfErrExists,
    AfErrAcces,
    AfErrNospc,
    AfErrInval,
    AfErrBusy,
    AfErrUnsupported,
}

/// The number of a result code: 0, or the POSIX error number it stands for
/// (ENOENT 2, EEXIST 17, EACCES 13, ENOSPC 28, EINVAL 22, EBUSY 16 and the
/// Linux ENOTSUP 95).
pub open spec fn af_code(r: AfResult) -> i32 {
    match r {
        AfResult::AfOk => 0,
        AfResult::AfErrNotFound => 2,
        AfResult::AfErrExists => 17,
        AfResult::AfErrAcces => 13,
        AfResult::AfErrNospc => 28,
        AfResult::AfErrInval => 22,
        AfResult::AfErrBusy => 16,
        AfResult::AfErrUnsupported => 95,
    }
}

impl AfResult {
    /// The number of the result code (see [`af_code`]).
    pub fn code(&self) -> (c: i32)
        ensures
            c == af_code(*self),
    {
        match self {
            AfResult::AfOk => 0,
            AfResult::AfErrNotFound => 2,
            AfResult::AfErrExists => 17,
            AfResult::AfErrAcces => 13,
            AfResult::AfErrNospc => 28,
            AfResult::AfErrInval => 22,
            AfResult::AfErrBusy => 16,
            AfResult::AfErrUnsupported => 95,
        }
    }
}

/// Snapshot id as the C interface passes it.
#[derive(Clone, Copy, Debug)]
pub struct AfSnapshotId {
    pub bytes: [u8; 16],
}

/// Branch id as the C interface passes it.
#[derive(Clone, Copy, Debug)]
pub struct AfBranchId {
    pub bytes: [u8; 16],
}

/// The result code for a filesystem error; errors without a code of their
/// own are invalid arguments.
pub open spec fn af_result_of(e: FsError) -> AfResult {
    match e {
        FsError::NotFound => AfResult::AfErrNotFound,
        FsError::AlreadyExists => AfResult::AfErrExists,
        FsError::AccessDenied => AfResult::AfErrAcces,
        FsError::InvalidArgument => AfResult::AfErrInval,
        FsError::Busy => AfResult::AfErrBusy,
        FsError::NoSpace => AfResult::AfErrNospc,
        FsError::Unsupported => AfResult::AfErrUnsupported,
        _ => AfResult::AfErrInval,
    }
}

/// The result code for a filesystem error (see [`af_result_of`]).
pub fn fs_error_to_af_result(err: &FsError) -> (r: AfResult)
    ensures
        r == af_result_of(*err),
{
    match err {
        FsError::NotFound => AfResult::AfErrNotFound,
        FsError::AlreadyExists => AfResult::AfErrExists,
        FsError::AccessDenied => AfResult::AfErrAcces,
        FsError::InvalidArgument => AfResult::AfErrInval,
        FsError::Busy => AfResult::AfErrBusy,
        FsError::NoSpace => AfResult::AfErrNospc,
        FsError::Unsupported => AfResult::AfErrUnsupported,
        _ => AfResult::AfErrInval,
    }
}

/// The members of a JSON configuration object that a new filesystem reads:
/// each present when the member exists with a value of its kind.
#[derive(Clone, Debug)]
pub struct AfConfigFields {
    pub max_memory_bytes: Option<u64>,
    pub spill_directory: Option<String>,
    pub max_open_handles: Option<u64>,
    pub max_branches: Option<u64>,
    pub max_snapshots: Option<u64>,
}

/// Mathematical value of [`AfConfigFields`].
pub struct AfConfigView {
    pub max_memory_bytes: Option<u64>,
    pub spill_directory: Option<Seq<char>>,
    pub max_open_handles: Option<u64>,
    pub max_branches: Option<u64>,
    pub max_snapshots: Option<u64>,
}

impl View for AfConfigFields {
    type V = AfConfigView;

    open spec fn view(&self) -> AfConfigView {
        AfConfigView {
            max_memory_bytes: self.max_memory_bytes,
            spill_directory: opt_view(self.spill_directory),
            max_open_handles: self.max_open_handles,
            max_branches: self.max_branches,
            max_snapshots: self.max_snapshots,
        }
    }
}

/// View of optional configuration members.
pub open spec fn opt_config_view(o: Option<AfConfigFields>) -> Option<AfConfigView> {
    match o {
        Some(f) => Some(f@),
        None => None,
    }
}

/// What `serde_json` reads from configuration text `text`: `None` when it is
/// not JSON.
pub uninterp spec fn json_config_fields(text: Seq<char>) -> Option<AfConfigView>;

/// Reads the members of a JSON configuration (`serde_json::from_str` to a
/// `Value`, then `get` and `as_u64` / `as_str`); `None` when the text is not JSON.
#[verifier::external_body]
fn parse_config_fields(text: &str) -> (r: Option<AfConfigFields>)
    ensures
        opt_config_view(r) == json_config_fields(text@),
{
    let v: serde_json::Value = serde_json::from_str(text).ok()?;
    Some(AfConfigFields {
        max_memory_bytes: v.get("max_memory_bytes").and_then(serde_json::Value::as_u64),
        spill_directory: v.get("spill_directory").and_then(serde_json::Value::as_str).map(str::to_string),
        max_open_handles: v.get("max_open_handles").and_then(serde_json::Value::as_u64),
        max_branches: v.get("max_branches").and_then(serde_json::Value::as_u64),
        max_snapshots: v.get("max_snapshots").and_then(serde_json::Value::as_u64),
    })
}

/// The members of a JSON open-options object: each present when the member
/// exists with a boolean value.
#[derive(Clone, Copy, Debug, PartialEq, Eq, Structural)]
pub struct AfOpenFlags {
    pub read: Option<bool>,
    pub write: Option<bool>,
    pub create: Option<bool>,
    pub truncate: Option<bool>,
    pub append: Option<bool>,
}

/// What `serde_json` reads from open-options text `text`: `None` when it is
/// not JSON.
pub uninterp spec fn json_open_flags(text: Seq<char>) -> Option<AfOpenFlags>;

/// Reads the members of JSON open options (`serde_json::from_str` to a
/// `Value`, then `get` and `as_bool`); `None` when the text is not JSON.
#[verifier::external_body]
fn parse_open_flags(text: &str) -> (r: Option<AfOpenFlags>)
    ensures
        r == json_open_flags(text@),
{
    let v: serde_json::Value = serde_json::from_str(text).ok()?;
    Some(AfOpenFlags {
        read: v.get("read").and_then(serde_json::Value::as_bool),
        write: v.get("write").and_then(serde_json::Value::as_bool),
        create: v.get("create").and_then(serde_json::Value::as_bool),
        truncate: v.get("truncate").and_then(serde_json::Value::as_bool),
        append: v.get("append").and_then(serde_json::Value::as_bool),
    })
}

/// `o`'s value, or `d` when absent.
pub open spec fn or_default<T>(o: Option<T>, d: T) -> T {
    match o {
        Some(v) => v,
        None => d,
    }
}

/// `c` is the configuration of a filesystem created through the C interface
/// from configuration members `f`: case-insensitive but case-preserving
/// names, the memory limit and spill directory given, at most 65536 open
/// handles, 256 branches and 4096 snapshots unless given (a given number is
/// truncated to 32 bits), one-second caches with readdir-plus and automatic
/// caching, extended attributes and events on, no alternate data streams,
/// and no permission enforcement.
pub open spec fn af_config_ok(c: FsConfig, f: AfConfigView) -> bool {
    &&& c.case_sensitivity == CaseSensitivity::InsensitivePreserving
    &&& c.memory.max_bytes_in_memory == f.max_memory_bytes
    &&& opt_view(c.memory.spill_directory) == f.spill_directory
    &&& c.limits.max_open_handles == or_default(f.max_open_handles, 65536u64) as u32
    &&& c.limits.max_branches == or_default(f.max_branches, 256u64) as u32
    &&& c.limits.max_snapshots == or_default(f.max_snapshots, 4096u64) as u32
    &&& c.cache.attr_ttl_ms == 1000 && c.cache.entry_ttl_ms == 1000 && c.cache.negative_ttl_ms == 1000
    &&& c.cache.enable_readdir_plus && c.cache.auto_cache && !c.cache.writeback_cache
    &&& c.enable_xattrs && !c.enable_ads && c.track_events
    &&& !c.security.enforce_posix_permissions
    &&& c.security.default_uid == 0 && c.security.default_gid == 0
    &&& !c.security.enable_windows_acl_compat && !c.security.root_bypass_permissions
}

/// The configuration of a filesystem created through the C interface from
/// configuration members `f` (see [`af_config_ok`]).
pub fn af_config(f: AfConfigFields) -> (c: FsConfig)
    ensures
        af_config_ok(c, f@),
{
    let max_open_handles: u64 = match f.max_open_handles {
        Some(n) => n,
        None => 65536,
    };
    let max_branches: u64 = match f.max_branches {
        Some(n) => n,
        None => 256,
    };
    let max_snapshots: u64 = match f.max_snapshots {
        Some(n) => n,
        None => 4096,
    };
    FsConfig {
        case_sensitivity: CaseSensitivity::InsensitivePreserving,
        memory: MemoryPolicy { max_bytes_in_memory: f.max_memory_bytes, spill_directory: f.spill_directory },
        limits: FsLimits {
            max_open_handles: #[verifier::truncate] (max_open_handles as u32),
            max_branches: #[verifier::truncate] (max_branches as u32),
            max_snapshots: #[verifier::truncate] (max_snapshots as u32),
        },
        cache: CachePolicy {
            attr_ttl_ms: 1000,
            entry_ttl_ms: 1000,
            negative_ttl_ms: 1000,
            enable_readdir_plus: true,
            auto_cache: true,
            writeback_cache: false,
        },
        security: SecurityPolicy::default(),
        enable_xattrs: true,
        enable_ads: false,
        track_events: true,
    }
}

/// Options a file is opened with through the C interface: the flags given,
/// absent ones off, no sharing restriction, the unnamed stream.
pub open spec fn af_open_options(f: AfOpenFlags) -> OpenOptionsView {
    OpenOptionsView {
        read: or_default(f.read, false),
        write: or_default(f.write, false),
        create: or_default(f.create, false),
        truncate: or_default(f.truncate, false),
        append: or_default(f.append, false),
        share: Seq::empty(),
        stream: None,
    }
}

fn open_options_from(f: AfOpenFlags) -> (o: OpenOptions)
    ensures
        o@ == af_open_options(f),
{
    let o = OpenOptions {
        read: match f.read {
            Some(b) => b,
            None => false,
        },
        write: match f.write {
            Some(b) => b,
            None => false,
        },
        create: match f.create {
            Some(b) => b,
            None => false,
        },
        truncate: match f.truncate {
            Some(b) => b,
            None => false,
        },
        append: match f.append {
            Some(b) => b,
            None => false,
        },
        share: Vec::new(),
        stream: None,
    };
    assert(o@.share =~= Seq::<crate::types::ShareMode>::empty());
    o
}

/// The attribute record handed back: the size as 8 bytes, then the kind
/// (0 file, 1 directory, 2 symlink).
pub open spec fn attr_record(len: u64, is_dir: bool, is_symlink: bool) -> Seq<u8> {
    spec_u64_to_le_bytes(len).push(if is_symlink { 2u8 } else if is_dir { 1u8 } else { 0u8 })
}

/// The statistics record handed back: branches, snapshots and open handles
/// as 4 bytes each, then bytes in memory and bytes spilled as 8 bytes each.
pub open spec fn stats_record(s: crate::types::FsStats) -> Seq<u8> {
    spec_u32_to_le_bytes(s.branches) + spec_u32_to_le_bytes(s.snapshots) + spec_u32_to_le_bytes(s.open_handles)
        + spec_u64_to_le_bytes(s.bytes_in_memory) + spec_u64_to_le_bytes(s.bytes_spilled)
}

/// The link target handed back into a buffer of `size` bytes: as much of
/// its UTF-8 encoding as leaves room for the terminating zero byte, then
/// that zero.
pub open spec fn link_record(target: Seq<char>, size: nat) -> Seq<u8> {
    let b = encode_utf8(target);
    let n = if b.len() < size - 1 { b.len() } else { (size - 1) as nat };
    b.take(n as int).push(0u8)
}

/// The reply of the control endpoint.
pub open spec fn control_reply() -> Seq<u8> {
    seq![123u8, 34, 115, 116, 97, 116, 117, 115, 34, 58, 34, 115, 117, 99, 99, 101, 115, 115, 34, 125]
}

/// The result code of an operation that ended with `x`.
pub open spec fn unit_result(x: crate::error::FsResult<()>) -> AfResult {
    match x {
        Ok(_) => AfResult::AfOk,
        Err(e) => af_result_of(e),
    }
}

/// `r` reports the handle an open or create that ended with `x` gave, or
/// its error.
pub open spec fn handle_result(x: crate::error::FsResult<HandleId>, r: Result<u64, AfResult>) -> bool {
    match x {
        Ok(h) => r == Ok::<u64, AfResult>(h.0),
        Err(e) => r == Err::<u64, AfResult>(af_result_of(e)),
    }
}

/// Filesystem instances of the C interface, numbered from 1.
pub struct AfRegistry {
    instances: HashMap<u64, FsCore>,
    next_id: u64,
}

impl AfRegistry {
    /// Every instance is well formed and numbered below the next number.
    pub closed spec fn wf(self) -> bool {
        &&& self.next_id >= 1
        &&& forall|k: u64| #[trigger]
            self.instances@.contains_key(k) ==> 1 <= k < self.next_id && self.instances@[k].wf()
    }

    /// Instance number `id`, if there is one.
    pub closed spec fn fs(self, id: u64) -> Option<FsCore> {
        if self.instances@.contains_key(id) {
            Some(self.instances@[id])
        } else {
            None
        }
    }

    /// The number the next instance gets.
    pub closed spec fn next_fs(self) -> u64 {
        self.next_id
    }

    /// Every instance is well formed, and numbered from 1 to below the next number.
    pub proof fn lemma_instances(self)
        requires
            self.wf(),
        ensures
            forall|k: u64| #[trigger] self.fs(k) matches Some(c) ==> 1 <= k < self.next_fs() && c.wf(),
    {
    }

    /// `post` differs from `self` in instance `id` at most.
    pub open spec fn others_kept(self, post: Self, id: u64) -> bool {
        &&& post.next_fs() == self.next_fs()
        &&& forall|k: u64| k != id ==> #[trigger] post.fs(k) == self.fs(k)
    }

    /// `post` is `self`.
    pub open spec fn all_kept(self, post: Self) -> bool {
        &&& post.next_fs() == self.next_fs()
        &&& forall|k: u64| #[trigger] post.fs(k) == self.fs(k)
    }

    /// The number the next instance gets.
    pub fn next_number(&self) -> (n: u64)
        ensures
            n == self.next_fs(),
    {
        self.next_id
    }

    /// No instances yet; the first gets number 1.
    pub fn new() -> (r: Self)
        ensures
            r.wf(),
            r.next_fs() == 1,
            forall|k: u64| #[trigger] r.fs(k) is None,
    {
        AfRegistry { instances: HashMap::new(), next_id: 1 }
    }

    /// Takes instance `fs` out.
    fn take(&mut self, fs: u64) -> (r: Option<FsCore>)
        requires
            old(self).wf(),
        ensures
            final(self).wf(),
            r == old(self).fs(fs),
            final(self).fs(fs) is None,
            old(self).others_kept(*final(self), fs),
    {
        self.instances.remove(&fs)
    }

    /// Puts instance `fs` back.
    fn put(&mut self, fs: u64, core: FsCore)
        requires
            old(self).wf(),
            1 <= fs < old(self).next_fs(),
            core.wf(),
        ensures
            final(self).wf(),
            final(self).fs(fs) == Some(core),
            old(self).others_kept(*final(self), fs),
    {
        self.instances.insert(fs, core);
    }

    /// Creates a filesystem configured from JSON text `config_json` (see
    /// [`af_config_ok`]) under the next number; text that is not JSON is an
    /// invalid argument.
    pub fn fs_create(&mut self, config_json: &str) -> (r: Result<u64, AfResult>)
        requires
            old(self).wf(),
            old(self).next_fs() < u64::MAX,
        ensures
            final(self).wf(),
            match json_config_fields(config_json@) {
                None => r == Err::<u64, AfResult>(AfResult::AfErrInval) && old(self).all_kept(*final(self)),
                Some(f) => {
                    let id = old(self).next_fs();
                    &&& r == Ok::<u64, AfResult>(id)
                    &&& old(self).fs(id) is None
                    &&& final(self).fs(id) matches Some(c) && c.fresh(c.config) && af_config_ok(c.config, f)
                    &&& final(self).next_fs() == id + 1
                    &&& forall|k: u64| k != id ==> #[trigger] final(self).fs(k) == old(self).fs(k)
                },
            },
    {
        let fields = match parse_config_fields(config_json) {
            Some(f) => f,
            None => return Err(AfResult::AfErrInval),
        };
        let config = af_config(fields);
        let core = match FsCore::new(config) {
            Ok(c) => c,
            Err(_) => return Err(AfResult::AfErrInval),
        };
        let id = self.next_id;
        self.instances.insert(id, core);
        self.next_id = id + 1;
        Ok(id)
    }

    /// Drops instance `fs`, if there is one.
    pub fn fs_destroy(&mut self, fs: u64) -> (r: AfResult)
        requires
            old(self).wf(),
        ensures
            final(self).wf(),
            r == AfResult::AfOk,
            final(self).fs(fs) is None,
            old(self).others_kept(*final(self), fs),
    {
        self.take(fs);
        AfResult::AfOk
    }

    /// Takes a snapshot named `name` of the branch `pid` works in on
    /// instance `fs`; an unknown instance is an invalid argument.
    pub fn snapshot_create(&mut self, pid: &PID, fs: u64, name: Option<&str>) -> (r: Result<AfSnapshotId, AfResult>)
        requires
            old(self).wf(),
        ensures
            final(self).wf(),
            match old(self).fs(fs) {
                None => r == Err::<AfSnapshotId, AfResult>(AfResult::AfErrInval) && old(self).all_kept(*final(self)),
                Some(c) => {
                    &&& old(self).others_kept(*final(self), fs)
                    &&& final(self).fs(fs) matches Some(c2) && exists|x: crate::error::FsResult<SnapshotId>|
                        #[trigger] c2.snapshot_taken(c, pid.0, name, x) && match x {
                            Ok(id) => r matches Ok(a) && a.bytes == id.0,
                            Err(e) => r == Err::<AfSnapshotId, AfResult>(af_result_of(e)),
                        }
                },
            },
    {
        let mut core = match self.take(fs) {
            Some(c) => c,
            None => return Err(AfResult::AfErrInval),
        };
        let x = core.snapshot_create(pid, name);
        let ghost after = core;
        self.put(fs, core);
        assert(after.snapshot_taken(old(self).fs(fs).unwrap(), pid.0, name, x));
        match x {
            Ok(id) => Ok(AfSnapshotId { bytes: id.0 }),
            Err(e) => Err(fs_error_to_af_result(&e)),
        }
    }

    /// Starts a branch named `name` from snapshot `snap` on instance `fs`;
    /// an unknown instance is an invalid argument.
    pub fn branch_create_from_snapshot(&mut self, fs: u64, snap: AfSnapshotId, name: Option<&str>) -> (r: Result<
        AfBranchId,
        AfResult,
    >)
        requires
            old(self).wf(),
        ensures
            final(self).wf(),
            match old(self).fs(fs) {
                None => r == Err::<AfBranchId, AfResult>(AfResult::AfErrInval) && old(self).all_kept(*final(self)),
                Some(c) => {
                    &&& old(self).others_kept(*final(self), fs)
                    &&& final(self).fs(fs) matches Some(c2) && exists|x: crate::error::FsResult<BranchId>|
                        #[trigger] c2.branched(c, SnapshotId(snap.bytes), name, x) && match x {
                            Ok(id) => r matches Ok(a) && a.bytes == id.0,
                            Err(e) => r == Err::<AfBranchId, AfResult>(af_result_of(e)),
                        }
                },
            },
    {
        let mut core = match self.take(fs) {
            Some(c) => c,
            None => return Err(AfResult::AfErrInval),
        };
        let x = core.branch_create_from_snapshot(SnapshotId(snap.bytes), name);
        let ghost after = core;
        self.put(fs, core);
        assert(after.branched(old(self).fs(fs).unwrap(), SnapshotId(snap.bytes), name, x));
        match x {
            Ok(id) => Ok(AfBranchId { bytes: id.0 }),
            Err(e) => Err(fs_error_to_af_result(&e)),
        }
    }

    /// Makes process `pid` work in branch `branch` of instance `fs`; an
    /// unknown instance is an invalid argument.
    pub fn bind_process_to_branch(&mut self, pid: &PID, fs: u64, branch: AfBranchId) -> (r: AfResult)
        requires
            old(self).wf(),
        ensures
            final(self).wf(),
            match old(self).fs(fs) {
                None => r == AfResult::AfErrInval && old(self).all_kept(*final(self)),
                Some(c) => {
                    &&& old(self).others_kept(*final(self), fs)
                    &&& final(self).fs(fs) matches Some(c2) && exists|x: crate::error::FsResult<()>|
                        #[trigger] c2.bound(c, BranchId(branch.bytes), pid.0, x) && r == unit_result(x)
                },
            },
    {
        let mut core = match self.take(fs) {
            Some(c) => c,
            None => return AfResult::AfErrInval,
        };
        let x = core.bind_process_to_branch_with_pid(BranchId(branch.bytes), pid.0);
        let ghost after = core;
        self.put(fs, core);
        assert(after.bound(old(self).fs(fs).unwrap(), BranchId(branch.bytes), pid.0, x));
        match x {
            Ok(()) => AfResult::AfOk,
            Err(e) => fs_error_to_af_result(&e),
        }
    }

    /// Makes directory `path` with `mode` on instance `fs` for `pid`; an
    /// unknown instance is an invalid argument.
    pub fn mkdir(&mut self, pid: &PID, fs: u64, path: &str, mode: u32) -> (r: AfResult)
        requires
            old(self).wf(),
        ensures
            final(self).wf(),
            match old(self).fs(fs) {
                None => r == AfResult::AfErrInval && old(self).all_kept(*final(self)),
                Some(c) => {
                    &&& old(self).others_kept(*final(self), fs)
                    &&& final(self).fs(fs) matches Some(c2) && exists|x: crate::error::FsResult<()>|
                        #[trigger] c2.made_dir(c, pid.0, path@, mode, x) && r == unit_result(x)
                },
            },
    {
        let mut core = match self.take(fs) {
            Some(c) => c,
            None => return AfResult::AfErrInval,
        };
        let x = core.mkdir(pid, path, mode);
        let ghost after = core;
        self.put(fs, core);
        assert(after.made_dir(old(self).fs(fs).unwrap(), pid.0, path@, mode, x));
        match x {
            Ok(()) => AfResult::AfOk,
            Err(e) => fs_error_to_af_result(&e),
        }
    }

    /// Removes directory `path` on instance `fs` for `pid`; an unknown
    /// instance is an invalid argument.
    pub fn rmdir(&mut self, pid: &PID, fs: u64, path: &str) -> (r: AfResult)
        requires
            old(self).wf(),
        ensures
            final(self).wf(),
            match old(self).fs(fs) {
                None => r == AfResult::AfErrInval && old(self).all_kept(*final(self)),
                Some(c) => {
                    &&& old(self).others_kept(*final(self), fs)
                    &&& final(self).fs(fs) matches Some(c2) && exists|x: crate::error::FsResult<()>|
                        #[trigger] c2.removed_dir(c, pid.0, path@, x) && r == unit_result(x)
                },
            },
    {
        let mut core = match self.take(fs) {
            Some(c) => c,
            None => return AfResult::AfErrInval,
        };
        let x = core.rmdir(pid, path);
        let ghost after = core;
        self.put(fs, core);
        assert(after.removed_dir(old(self).fs(fs).unwrap(), pid.0, path@, x));
        match x {
            Ok(()) => AfResult::AfOk,
            Err(e) => fs_error_to_af_result(&e),
        }
    }

    /// Unlinks `path` on instance `fs` for `pid`; an unknown instance is an
    /// invalid argument.
    pub fn unlink(&mut self, pid: &PID, fs: u64, path: &str) -> (r: AfResult)
        requires
            old(self).wf(),
        ensures
            final(self).wf(),
            match old(self).fs(fs) {
                None => r == AfResult::AfErrInval && old(self).all_kept(*final(self)),
                Some(c) => {
                    &&& old(self).others_kept(*final(self), fs)
                    &&& final(self).fs(fs) matches Some(c2) && exists|x: crate::error::FsResult<()>|
                        #[trigger] c2.unlinked(c, pid.0, path@, x) && r == unit_result(x)
                },
            },
    {
        let mut core = match self.take(fs) {
            Some(c) => c,
            None => return AfResult::AfErrInval,
        };
        let x = core.unlink(pid, path);
        let ghost after = core;
        self.put(fs, core);
        assert(after.unlinked(old(self).fs(fs).unwrap(), pid.0, path@, x));
        match x {
            Ok(()) => AfResult::AfOk,
            Err(e) => fs_error_to_af_result(&e),
        }
    }

    /// Links `linkpath` to `target` on instance `fs` for `pid`; an unknown
    /// instance is an invalid argument.
    pub fn symlink(&mut self, pid: &PID, fs: u64, target: &str, linkpath: &str) -> (r: AfResult)
        requires
            old(self).wf(),
        ensures
            final(self).wf(),
            match old(self).fs(fs) {
                None => r == AfResult::AfErrInval && old(self).all_kept(*final(self)),
                Some(c) => {
                    &&& old(self).others_kept(*final(self), fs)
                    &&& final(self).fs(fs) matches Some(c2) && exists|x: crate::error::FsResult<()>|
                        #[trigger] c2.linked(c, pid.0, target@, linkpath@, x) && r == unit_result(x)
                },
            },
    {
        let mut core = match self.take(fs) {
            Some(c) => c,
            None => return AfResult::AfErrInval,
        };
        let x = core.symlink(pid, target, linkpath);
        let ghost after = core;
        self.put(fs, core);
        assert(after.linked(old(self).fs(fs).unwrap(), pid.0, target@, linkpath@, x));
        match x {
            Ok(()) => AfResult::AfOk,
            Err(e) => fs_error_to_af_result(&e),
        }
    }
    /// Opens `path` on instance `fs` for `pid` with the options that JSON
    /// text `options_json` gives (see [`af_open_options`]), creating the file
    /// when they ask to; options that are not JSON, and an unknown instance,
    /// are invalid arguments.
    pub fn open(&mut self, pid: &PID, fs: u64, path: &str, options_json: &str) -> (r: Result<u64, AfResult>)
        requires
            old(self).wf(),
        ensures
            final(self).wf(),
            match (json_open_flags(options_json@), old(self).fs(fs)) {
                (None, _) => r == Err::<u64, AfResult>(AfResult::AfErrInval) && old(self).all_kept(*final(self)),
                (Some(_), None) => r == Err::<u64, AfResult>(AfResult::AfErrInval) && old(self).all_kept(*final(self)),
                (Some(f), Some(c)) => {
                    let o = af_open_options(f);
                    &&& old(self).others_kept(*final(self), fs)
                    &&& final(self).fs(fs) matches Some(c2) && if o.create {
                        exists|x: crate::error::FsResult<HandleId>|
                            #[trigger] c2.created(c, pid.0, path@, o, x) && handle_result(x, r)
                    } else {
                        exists|x: crate::error::FsResult<HandleId>|
                            #[trigger] c2.opened(c, pid.0, path@, o, x) && handle_result(x, r)
                    }
                },
            },
    {
        let flags = match parse_open_flags(options_json) {
            Some(f) => f,
            None => return Err(AfResult::AfErrInval),
        };
        let options = open_options_from(flags);
        let mut core = match self.take(fs) {
            Some(c) => c,
            None => return Err(AfResult::AfErrInval),
        };
        let ghost before = core;
        let x = if options.create {
            core.create(pid, path, &options)
        } else {
            core.open(pid, path, &options)
        };
        let ghost after = core;
        self.put(fs, core);
        if options.create {
            assert(after.created(before, pid.0, path@, options@, x));
        } else {
            assert(after.opened(before, pid.0, path@, options@, x));
        }
        match x {
            Ok(h) => Ok(h.0),
            Err(e) => Err(fs_error_to_af_result(&e)),
        }
    }

    /// Reads up to `len` bytes at `off` through handle `h` of instance `fs`;
    /// an unknown instance is an invalid argument. Nothing changes.
    pub fn read(&self, pid: &PID, fs: u64, h: u64, off: u64, len: u32) -> (r: Result<Vec<u8>, AfResult>)
        requires
            self.wf(),
        ensures
            match self.fs(fs) {
                None => r == Err::<Vec<u8>, AfResult>(AfResult::AfErrInval),
                Some(c) => match c.read_source(HandleId(h)) {
                    Ok(cid) => {
                        let data = c.content(cid).unwrap();
                        let n = read_count(data, off as int, len as int);
                        r matches Ok(v) && v@.len() == n && forall|k: int|
                            0 <= k < n ==> #[trigger] v@[k] == data[off + k]
                    },
                    Err(e) => r == Err::<Vec<u8>, AfResult>(af_result_of(e)),
                },
            },
    {
        if !self.instances.contains_key(&fs) {
            return Err(AfResult::AfErrInval);
        }
        let core = match self.instances.get(&fs) {
            Some(c) => c,
            None => return Err(AfResult::AfErrInval),
        };
        let mut buf = vec![0u8; len as usize];
        match core.read(pid, HandleId(h), off, buf.as_mut_slice()) {
            Ok(n) => {
                buf.truncate(n);
                Ok(buf)
            },
            Err(e) => Err(fs_error_to_af_result(&e)),
        }
    }

    /// Writes `data` at `off` through handle `h` of instance `fs` for `pid`
    /// and counts the bytes written; an unknown instance is an invalid argument.
    pub fn write(&mut self, pid: &PID, fs: u64, h: u64, off: u64, data: &[u8]) -> (r: Result<u32, AfResult>)
        requires
            old(self).wf(),
            data@.len() <= u32::MAX,
            off + data@.len() <= usize::MAX,
        ensures
            final(self).wf(),
            match old(self).fs(fs) {
                None => r == Err::<u32, AfResult>(AfResult::AfErrInval) && old(self).all_kept(*final(self)),
                Some(c) => {
                    &&& old(self).others_kept(*final(self), fs)
                    &&& final(self).fs(fs) matches Some(c2) && exists|x: crate::error::FsResult<usize>|
                        #[trigger] c2.written(c, pid.0, HandleId(h), off, data@, x) && match x {
                            Ok(n) => r == Ok::<u32, AfResult>(n as u32),
                            Err(e) => r == Err::<u32, AfResult>(af_result_of(e)),
                        }
                },
            },
    {
        let mut core = match self.take(fs) {
            Some(c) => c,
            None => return Err(AfResult::AfErrInval),
        };
        let x = core.write(pid, HandleId(h), off, data);
        let ghost after = core;
        self.put(fs, core);
        assert(after.written(old(self).fs(fs).unwrap(), pid.0, HandleId(h), off, data@, x));
        match x {
            Ok(n) => Ok(n as u32),
            Err(e) => Err(fs_error_to_af_result(&e)),
        }
    }

    /// Closes handle `h` of instance `fs`; an unknown instance is an invalid
    /// argument.
    pub fn close(&mut self, pid: &PID, fs: u64, h: u64) -> (r: AfResult)
        requires
            old(self).wf(),
        ensures
            final(self).wf(),
            match old(self).fs(fs) {
                None => r == AfResult::AfErrInval && old(self).all_kept(*final(self)),
                Some(c) => {
                    &&& old(self).others_kept(*final(self), fs)
                    &&& final(self).fs(fs) matches Some(c2) && exists|x: crate::error::FsResult<()>|
                        #[trigger] c2.closed(c, HandleId(h), x) && r == unit_result(x)
                },
            },
    {
        let mut core = match self.take(fs) {
            Some(c) => c,
            None => return AfResult::AfErrInval,
        };
        let x = core.close(pid, HandleId(h));
        let ghost after = core;
        self.put(fs, core);
        assert(after.closed(old(self).fs(fs).unwrap(), HandleId(h), x));
        match x {
            Ok(()) => AfResult::AfOk,
            Err(e) => fs_error_to_af_result(&e),
        }
    }

    /// The statistics record of instance `fs` (see [`stats_record`]) for a
    /// buffer of `stats_size` bytes; an unknown instance and a buffer
    /// shorter than the record are invalid arguments.
    pub fn stats(&self, fs: u64, stats_size: usize) -> (r: Result<Vec<u8>, AfResult>)
        requires
            self.wf(),
        ensures
            match self.fs(fs) {
                None => r == Err::<Vec<u8>, AfResult>(AfResult::AfErrInval),
                Some(c) => if stats_size >= 28 {
                    r matches Ok(v) && v@ == stats_record(crate::types::FsStats {
                        branches: c.branches@.len() as u32,
                        snapshots: c.snapshots@.len() as u32,
                        open_handles: c.handles@.len() as u32,
                        bytes_in_memory: 0,
                        bytes_spilled: 0,
                    })
                } else {
                    r == Err::<Vec<u8>, AfResult>(AfResult::AfErrInval)
                },
            },
    {
        let core = match self.instances.get(&fs) {
            Some(c) => c,
            None => return Err(AfResult::AfErrInval),
        };
        let st = core.stats();
        if stats_size < 28 {
            return Err(AfResult::AfErrInval);
        }
        let mut out = u32_to_le_bytes(st.branches);
        let mut b = u32_to_le_bytes(st.snapshots);
        out.append(&mut b);
        let mut b = u32_to_le_bytes(st.open_handles);
        out.append(&mut b);
        let mut b = u64_to_le_bytes(st.bytes_in_memory);
        out.append(&mut b);
        let mut b = u64_to_le_bytes(st.bytes_spilled);
        out.append(&mut b);
        Ok(out)
    }

    /// The attribute record (see [`attr_record`]) of `path` on instance
    /// `fs` for `pid`, for a buffer of `attrs_size` bytes; an unknown
    /// instance and a buffer shorter than the record are invalid arguments.
    pub fn getattr(&self, pid: &PID, fs: u64, path: &str, attrs_size: usize) -> (r: Result<Vec<u8>, AfResult>)
        requires
            self.wf(),
        ensures
            match self.fs(fs) {
                None => r == Err::<Vec<u8>, AfResult>(AfResult::AfErrInval),
                Some(c) => match c.lookup(pid.0, path@) {
                    Ok(id) => {
                        let a = attributes_of(c.node(id).unwrap());
                        if attrs_size >= 9 {
                            r matches Ok(v) && v@ == attr_record(a.len, a.is_dir, a.is_symlink)
                        } else {
                            r == Err::<Vec<u8>, AfResult>(AfResult::AfErrInval)
                        }
                    },
                    Err(e) => r == Err::<Vec<u8>, AfResult>(af_result_of(e)),
                },
            },
    {
        let core = match self.instances.get(&fs) {
            Some(c) => c,
            None => return Err(AfResult::AfErrInval),
        };
        match core.getattr(pid, path) {
            Ok(attrs) => {
                let kind: u8 = if attrs.is_symlink {
                    2
                } else if attrs.is_dir {
                    1
                } else {
                    0
                };
                if attrs_size >= 9 {
                    let mut out = u64_to_le_bytes(attrs.len);
                    out.push(kind);
                    Ok(out)
                } else {
                    Err(AfResult::AfErrInval)
                }
            },
            Err(e) => Err(fs_error_to_af_result(&e)),
        }
    }

    /// The target of symlink `path` on instance `fs` for `pid`, as handed
    /// into a buffer of `target_size` bytes (see [`link_record`]); an unknown
    /// instance is an invalid argument.
    pub fn readlink(&self, pid: &PID, fs: u64, path: &str, target_size: usize) -> (r: Result<Vec<u8>, AfResult>)
        requires
            self.wf(),
            target_size > 0,
        ensures
            match self.fs(fs) {
                None => r == Err::<Vec<u8>, AfResult>(AfResult::AfErrInval),
                Some(c) => match c.lookup(pid.0, path@) {
                    Ok(id) => match c.node(id).unwrap().kind {
                        KindV::Symlink { target } => r matches Ok(v) && v@ == link_record(target, target_size as nat),
                        _ => r == Err::<Vec<u8>, AfResult>(AfResult::AfErrInval),
                    },
                    Err(e) => r == Err::<Vec<u8>, AfResult>(af_result_of(e)),
                },
            },
    {
        let core = match self.instances.get(&fs) {
            Some(c) => c,
            None => return Err(AfResult::AfErrInval),
        };
        match core.readlink(pid, path) {
            Ok(target) => {
                let bytes = target.as_str().as_bytes();
                let n = if bytes.len() < target_size - 1 {
                    bytes.len()
                } else {
                    target_size - 1
                };
                let mut out: Vec<u8> = Vec::new();
                let mut i: usize = 0;
                while i < n
                    invariant
                        i <= n <= bytes@.len(),
                        out@ == bytes@.take(i as int),
                    decreases n - i,
                {
                    out.push(bytes[i]);
                    assert(out@ =~= bytes@.take(i + 1));
                    i = i + 1;
                }
                out.push(0u8);
                Ok(out)
            },
            Err(e) => Err(fs_error_to_af_result(&e)),
        }
    }

    /// The reply of the control endpoint of instance `fs` (see
    /// [`control_reply`]) for a buffer of `response_max_len` bytes; an
    /// unknown instance and a buffer shorter than the reply are invalid
    /// arguments.
    pub fn control_request(&self, fs: u64, response_max_len: usize) -> (r: Result<Vec<u8>, AfResult>)
        requires
            self.wf(),
        ensures
            if self.fs(fs) is None || response_max_len < 20 {
                r == Err::<Vec<u8>, AfResult>(AfResult::AfErrInval)
            } else {
                r matches Ok(v) && v@ == control_reply()
            },
    {
        if !self.instances.contains_key(&fs) {
            return Err(AfResult::AfErrInval);
        }
        let reply: Vec<u8> = vec![
            123u8, 34, 115, 116, 97, 116, 117, 115, 34, 58, 34, 115, 117, 99, 99, 101, 115, 115, 34, 125,
        ];
        if reply.len() > response_max_len {
            return Err(AfResult::AfErrInval);
        }
        assert(reply@ =~= control_reply());
        Ok(reply)
    }
}

} // verus!
