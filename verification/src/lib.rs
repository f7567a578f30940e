//! AgentFS core: an in-memory filesystem with snapshots, branches,
//! per-process branch binding, POSIX permissions and byte-range locks,
//! together with the control-plane message types built around it.

pub mod agent_tasks;
pub mod cli_fs;
pub mod cli_task;
pub mod cli_tui;
pub mod clock;
pub mod config;
pub mod control;
pub mod core_error;
pub mod daemon;
pub mod errno;
pub mod legacy;
pub mod error;
pub mod ffi;
pub mod fskit;
pub mod interpose;
pub mod snapshot_commit;
pub mod snapshots;
pub mod mux;
pub mod path;
pub mod proto;
pub mod push;
pub mod records;
pub mod server;
pub mod sessions;
pub mod seqs;
pub mod storage;
pub mod tasks;
pub mod text;
pub mod types;
pub mod utc;

pub use config::{CachePolicy, CaseSensitivity, FsConfig, FsLimits, MemoryPolicy, SecurityPolicy};
pub use error::{FsError, FsResult};
pub use types::{
    Attributes, BranchId, BranchInfo, ContentId, DirEntry, EventKind, EventSink, FallocateMode,
    FileMode, FileTimes, FsStats, HandleId, LockKind, LockRange, OpenOptions, OpenOptionsView,
    ShareMode, SnapshotId, StreamSpec, SubscriptionId, User, XattrEntry, PID,
};
pub mod vfs;
pub use vfs::FsCore;
