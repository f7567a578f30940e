//! Configuration of the filesystem core.

use vstd::prelude::*;

verus! {

/// Case sensitivity modes.
#[derive(Clone, Copy, Debug, PartialEq, Eq, Structural)]
pub enum CaseSensitivity {
    Sensitive,
    InsensitivePreserving,
}

/// Memory policy for storage backends.
#[derive(Clone, Debug)]
pub struct MemoryPolicy {
    pub max_bytes_in_memory: Option<u64>,
    pub spill_directory: Option<String>,
}

/// System limits.
#[derive(Clone, Copy, Debug)]
pub struct FsLimits {
    pub max_open_handles: u32,
    pub max_branches: u32,
    pub max_snapshots: u32,
}

/// Cache policy settings.
#[derive(Clone, Copy, Debug)]
pub struct CachePolicy {
    pub attr_ttl_ms: u32,
    pub entry_ttl_ms: u32,
    pub negative_ttl_ms: u32,
    pub enable_readdir_plus: bool,
    pub auto_cache: bool,
    pub writeback_cache: bool,
}

/// Access-control policy.
#[derive(Clone, Copy, Debug)]
pub struct SecurityPolicy {
    /// Check POSIX owner/group/other permission bits on every access.
    pub enforce_posix_permissions: bool,
    /// Owner of nodes created on behalf of an unregistered process and of the root directory.
    pub default_uid: u32,
    /// Group of nodes created on behalf of an unregistered process and of the root directory.
    pub default_gid: u32,
    /// Windows ACL compatibility mode (carried, not interpreted by the core).
    pub enable_windows_acl_compat: bool,
    /// uid 0 passes every permission check.
    pub root_bypass_permissions: bool,
}

impl Default for SecurityPolicy {
    /// No permission enforcement, everything owned by uid/gid 0.
    fn default() -> (r: Self)
        ensures
            !r.enforce_posix_permissions,
            r.default_uid == 0,
            r.default_gid == 0,
            !r.enable_windows_acl_compat,
            !r.root_bypass_permissions,
    {
        SecurityPolicy {
            enforce_posix_permissions: false,
            default_uid: 0,
            default_gid: 0,
            enable_windows_acl_compat: false,
            root_bypass_permissions: false,
        }
    }
}

/// Main filesystem configuration.
#[derive(Clone, Debug)]
pub struct FsConfig {
    pub case_sensitivity: CaseSensitivity,
    pub memory: MemoryPolicy,
    pub limits: FsLimits,
    pub cache: CachePolicy,
    pub enable_xattrs: bool,
    pub enable_ads: bool,
    pub track_events: bool,
    pub security: SecurityPolicy,
}

impl FsConfig {
    /// An identical configuration.
    pub fn duplicate(&self) -> (r: Self)
        ensures
            r == *self,
    {
        let spill = match &self.memory.spill_directory {
            Some(d) => Some(d.clone()),
            None => None,
        };
        FsConfig {
            case_sensitivity: self.case_sensitivity,
            memory: MemoryPolicy { max_bytes_in_memory: self.memory.max_bytes_in_memory, spill_directory: spill },
            limits: self.limits,
            cache: self.cache,
            enable_xattrs: self.enable_xattrs,
            enable_ads: self.enable_ads,
            track_events: self.track_events,
            security: self.security,
        }
    }
}

} // verus!
