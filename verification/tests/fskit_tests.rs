//! The FSKit adapter, its extension and volume.

use agentfs_core::fskit::{AgentFsUnaryExtension, FsFileName, FsKitAdapter, FsKitConfig, XpcControlService};
use agentfs_core::{CachePolicy, CaseSensitivity, FsConfig, FsError, FsLimits, MemoryPolicy, SecurityPolicy};

fn kit_config() -> FsKitConfig {
    FsKitConfig {
        fs_config: FsConfig {
            case_sensitivity: CaseSensitivity::Sensitive,
            memory: MemoryPolicy { max_bytes_in_memory: None, spill_directory: None },
            limits: FsLimits { max_open_handles: 64, max_branches: 8, max_snapshots: 8 },
            cache: CachePolicy {
                attr_ttl_ms: 1000,
                entry_ttl_ms: 1000,
                negative_ttl_ms: 1000,
                enable_readdir_plus: true,
                auto_cache: true,
                writeback_cache: false,
            },
            enable_xattrs: true,
            enable_ads: false,
            track_events: false,
            security: SecurityPolicy::default(),
        },
        mount_point: "/Volumes/AgentFS".to_string(),
        xpc_service_name: Some("com.example.agentfs".to_string()),
    }
}

#[test]
fn fskit_adapter_keeps_its_configuration() {
    let adapter = FsKitAdapter::new(kit_config()).unwrap();
    assert_eq!(adapter.config().mount_point, "/Volumes/AgentFS");
    assert_eq!(adapter.config().xpc_service_name.as_deref(), Some("com.example.agentfs"));
    assert_eq!(adapter.fs_core().branch_list().len(), 1);
    assert_eq!(adapter.mount(), Err("FSKit is only available on macOS".to_string()));
    assert_eq!(adapter.unmount(), Err("FSKit is only available on macOS".to_string()));
    assert_eq!(adapter.start_xpc_service(), Err("FSKit is only available on macOS".to_string()));
    let xpc = XpcControlService::new(&adapter, "svc".to_string());
    assert_eq!(xpc.start(), Err("XPC is only available on macOS".to_string()));
}

#[test]
fn fskit_file_name_round_trips() {
    let n = FsFileName::from_string("notes.txt");
    assert_eq!(n.as_str(), "notes.txt");
}

#[test]
fn fskit_extension_loads_and_unloads() {
    let mut ext = AgentFsUnaryExtension::new(kit_config()).unwrap();
    assert!(ext.volume().is_none());
    ext.load_resource().unwrap();
    assert!(ext.volume().is_some());
    ext.load_resource().unwrap();
    assert!(ext.volume().is_some());
    ext.unload_resource().unwrap();
    assert!(ext.volume().is_none());
    ext.unload_resource().unwrap();
    assert!(ext.volume().is_none());
}

#[test]
fn fskit_volume_file_operations() {
    let mut ext = AgentFsUnaryExtension::new(kit_config()).unwrap();
    ext.load_resource().unwrap();
    let vol = ext.volume_mut();
    vol.create_file("/hello.txt").unwrap();
    assert_eq!(vol.create_file("/hello.txt"), Err(FsError::AlreadyExists));
    vol.write_file("/hello.txt", "hi there").unwrap();
    assert_eq!(vol.read_file("/hello.txt").unwrap(), "hi there");
    assert_eq!(vol.read_file("/missing"), Err(FsError::NotFound));
    assert_eq!(vol.write_file("/missing", "x"), Err(FsError::NotFound));
    // The core keeps its files across unloading and loading again.
    ext.unload_resource().unwrap();
    ext.load_resource().unwrap();
    assert_eq!(ext.volume_mut().read_file("/hello.txt").unwrap(), "hi there");
}

#[test]
fn fskit_read_file_reads_at_most_a_kilobyte() {
    let mut ext = AgentFsUnaryExtension::new(kit_config()).unwrap();
    ext.load_resource().unwrap();
    let vol = ext.volume_mut();
    vol.create_file("/big").unwrap();
    let text = "a".repeat(1500);
    vol.write_file("/big", &text).unwrap();
    assert_eq!(vol.read_file("/big").unwrap().len(), 1024);
}
