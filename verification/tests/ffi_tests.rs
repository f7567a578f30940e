//! The logic behind the C interface: instances, result codes, configuration
//! and options read from JSON, and the records handed back.

use agentfs_core::ffi::{af_config, fs_error_to_af_result, AfConfigFields, AfRegistry, AfResult, AfSnapshotId};
use agentfs_core::{CaseSensitivity, FsError, PID};

fn pid() -> PID {
    PID::new(4242)
}

const CONFIG: &str = "{\"max_memory_bytes\": 1048576, \"max_open_handles\": 128, \"max_branches\": 8, \"max_snapshots\": 8}";

#[test]
fn ffi_result_codes_are_errno_numbers() {
    let codes = [
        (AfResult::AfOk, 0),
        (AfResult::AfErrNotFound, 2),
        (AfResult::AfErrExists, 17),
        (AfResult::AfErrAcces, 13),
        (AfResult::AfErrNospc, 28),
        (AfResult::AfErrInval, 22),
        (AfResult::AfErrBusy, 16),
        (AfResult::AfErrUnsupported, 95),
    ];
    for (r, c) in codes {
        assert_eq!(r.code(), c);
    }
    assert_eq!(fs_error_to_af_result(&FsError::NotFound), AfResult::AfErrNotFound);
    assert_eq!(fs_error_to_af_result(&FsError::AlreadyExists), AfResult::AfErrExists);
    assert_eq!(fs_error_to_af_result(&FsError::AccessDenied), AfResult::AfErrAcces);
    assert_eq!(fs_error_to_af_result(&FsError::Busy), AfResult::AfErrBusy);
    assert_eq!(fs_error_to_af_result(&FsError::NoSpace), AfResult::AfErrNospc);
    assert_eq!(fs_error_to_af_result(&FsError::Unsupported), AfResult::AfErrUnsupported);
    assert_eq!(fs_error_to_af_result(&FsError::NotEmpty), AfResult::AfErrInval);
    assert_eq!(fs_error_to_af_result(&FsError::IsADirectory), AfResult::AfErrInval);
}

#[test]
fn ffi_config_defaults_and_truncation() {
    let c = af_config(AfConfigFields {
        max_memory_bytes: None,
        spill_directory: Some("/tmp/spill".to_string()),
        max_open_handles: None,
        max_branches: Some(8),
        max_snapshots: Some((1u64 << 32) + 5),
    });
    assert!(matches!(c.case_sensitivity, CaseSensitivity::InsensitivePreserving));
    assert_eq!(c.limits.max_open_handles, 65536);
    assert_eq!(c.limits.max_branches, 8);
    assert_eq!(c.limits.max_snapshots, 5);
    assert_eq!(c.memory.spill_directory, Some("/tmp/spill".to_string()));
    assert_eq!(c.memory.max_bytes_in_memory, None);
    assert!(c.enable_xattrs && !c.enable_ads && c.track_events);
    assert_eq!(c.cache.attr_ttl_ms, 1000);
}

#[test]
fn ffi_instances_are_numbered() {
    let mut reg = AfRegistry::new();
    assert_eq!(reg.fs_create(CONFIG), Ok(1));
    assert_eq!(reg.fs_create("{}"), Ok(2));
    assert_eq!(reg.fs_create("not json"), Err(AfResult::AfErrInval));
    assert_eq!(reg.fs_destroy(1), AfResult::AfOk);
    assert_eq!(reg.mkdir(&pid(), 1, "/d", 0o755), AfResult::AfErrInval);
    assert_eq!(reg.fs_create(CONFIG), Ok(3));
    assert_eq!(reg.fs_destroy(99), AfResult::AfOk);
}

#[test]
fn ffi_file_round_trip() {
    let mut reg = AfRegistry::new();
    let fs = reg.fs_create(CONFIG).unwrap();
    let p = pid();
    let opts = "{\"read\":true,\"write\":true,\"create\":true,\"truncate\":true}";
    let h = reg.open(&p, fs, "/file", opts).unwrap();
    assert_eq!(h, 1);
    assert_eq!(reg.write(&p, fs, h, 0, b"hello world"), Ok(11));
    assert_eq!(reg.read(&p, fs, h, 6, 100), Ok(b"world".to_vec()));
    assert_eq!(reg.close(&p, fs, h), AfResult::AfOk);
    assert_eq!(reg.close(&p, fs, h), AfResult::AfErrInval);
    assert_eq!(reg.open(&p, fs, "/file", "{\"create\":true}"), Err(AfResult::AfErrExists));
    assert_eq!(reg.open(&p, fs, "/missing", "{\"read\":true}"), Err(AfResult::AfErrNotFound));
    assert_eq!(reg.open(&p, fs, "/file", "{bad"), Err(AfResult::AfErrInval));
    assert_eq!(reg.open(&p, 7, "/file", "{}"), Err(AfResult::AfErrInval));
    let attrs = reg.getattr(&p, fs, "/file", 64).unwrap();
    let mut expected = 11u64.to_le_bytes().to_vec();
    expected.push(0);
    assert_eq!(attrs, expected);
    assert_eq!(reg.getattr(&p, fs, "/file", 8), Err(AfResult::AfErrInval));
    assert_eq!(reg.getattr(&p, fs, "/", 9).unwrap()[8], 1);
    assert_eq!(reg.unlink(&p, fs, "/file"), AfResult::AfOk);
    assert_eq!(reg.getattr(&p, fs, "/file", 64), Err(AfResult::AfErrNotFound));
}

#[test]
fn ffi_directories_and_links() {
    let mut reg = AfRegistry::new();
    let fs = reg.fs_create(CONFIG).unwrap();
    let p = pid();
    assert_eq!(reg.mkdir(&p, fs, "/d", 0o755), AfResult::AfOk);
    assert_eq!(reg.mkdir(&p, fs, "/d", 0o755), AfResult::AfErrExists);
    assert_eq!(reg.symlink(&p, fs, "/d/target-name", "/link"), AfResult::AfOk);
    let link = reg.readlink(&p, fs, "/link", 64).unwrap();
    assert_eq!(link, b"/d/target-name\0".to_vec());
    assert_eq!(reg.readlink(&p, fs, "/link", 4).unwrap(), b"/d/\0".to_vec());
    assert_eq!(reg.readlink(&p, fs, "/link", 1).unwrap(), b"\0".to_vec());
    assert_eq!(reg.readlink(&p, fs, "/d", 64), Err(AfResult::AfErrInval));
    assert_eq!(reg.getattr(&p, fs, "/link", 9).unwrap()[8], 2);
    assert_eq!(reg.rmdir(&p, fs, "/d"), AfResult::AfOk);
    assert_eq!(reg.rmdir(&p, fs, "/d"), AfResult::AfErrNotFound);
}

#[test]
fn ffi_snapshots_branches_and_stats() {
    let mut reg = AfRegistry::new();
    let fs = reg.fs_create(CONFIG).unwrap();
    let p = pid();
    let snap = reg.snapshot_create(&p, fs, Some("first")).unwrap();
    let branch = reg.branch_create_from_snapshot(fs, AfSnapshotId { bytes: snap.bytes }, Some("b1")).unwrap();
    assert!(reg.branch_create_from_snapshot(fs, AfSnapshotId { bytes: [9; 16] }, None).is_err());
    assert_eq!(reg.bind_process_to_branch(&p, fs, branch), AfResult::AfOk);
    let stats = reg.stats(fs, 28).unwrap();
    assert_eq!(stats.len(), 28);
    assert_eq!(&stats[0..4], &2u32.to_le_bytes());
    assert_eq!(&stats[4..8], &1u32.to_le_bytes());
    assert_eq!(&stats[8..12], &0u32.to_le_bytes());
    assert_eq!(reg.stats(fs, 27), Err(AfResult::AfErrInval));
    assert_eq!(reg.stats(5, 28), Err(AfResult::AfErrInval));
    assert!(reg.snapshot_create(&p, 5, None).is_err());
}

#[test]
fn ffi_control_reply() {
    let mut reg = AfRegistry::new();
    let fs = reg.fs_create(CONFIG).unwrap();
    assert_eq!(reg.control_request(fs, 64), Ok(b"{\"status\":\"success\"}".to_vec()));
    assert_eq!(reg.control_request(fs, 19), Err(AfResult::AfErrInval));
    assert_eq!(reg.control_request(fs + 1, 64), Err(AfResult::AfErrInval));
}
