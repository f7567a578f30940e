//! Behaviour of the filesystem core, driven through its public operations.

use std::sync::{Arc, Mutex};

use agentfs_core::{
    BranchId, CachePolicy, CaseSensitivity, EventKind, EventSink, FileMode, FileTimes, FsConfig, FsCore,
    FsError, FsLimits, LockKind, LockRange, MemoryPolicy, OpenOptions, SecurityPolicy, ShareMode, PID,
};

/// The calling process of operations that act for "the current process":
/// one that no test registers or binds to a branch.
fn this_process() -> PID {
    PID::new(u32::MAX)
}


#[test]
fn test_chown_updates_uid_gid_and_ctime() {
    let mut core = test_core();
    let pid = core.register_process(1000, 1000, 0, 0);
    core.mkdir(&pid, "/d".as_ref(), 0o755).unwrap();
    let h = core.create(&pid, "/d/f".as_ref(), &rw_create()).unwrap();
    core.close(&pid, h).unwrap();

    let before = core.getattr(&pid, "/d/f".as_ref()).unwrap();
    core.set_owner(&pid, "/d/f".as_ref(), 501, 20).unwrap();
    let after = core.getattr(&pid, "/d/f".as_ref()).unwrap();
    assert_eq!(after.uid, 501);
    assert_eq!(after.gid, 20);
    assert!(after.times.ctime >= before.times.ctime);
}

#[test]
fn test_create_with_non_utf8_name_and_readdir_bytes() {
    let (mut core, pid) = test_core_posix();
    core.mkdir(&pid, "/raw".as_ref(), 0o755).unwrap();

    // Percent-encoding path for internal create pathless API is handled via create_child_by_id; here we simulate
    let (parent_id, _) = core.resolve_path_public(&pid, "/raw".as_ref()).unwrap();
    let name_bytes = vec![0x66, 0x6F, 0x80, 0x6F]; // "fo\x80o" invalid UTF-8
    let node_id = core.create_child_by_id(parent_id, &name_bytes, 0, 0o644).unwrap();
    assert!(node_id > 0);

    // readdir_plus_raw returns the original bytes
    let entries = core.readdir_plus_raw(&pid, "/raw".as_ref()).unwrap();
    assert!(entries.iter().any(|(b, _)| b == &name_bytes));
}

#[test]
fn test_register_process_idempotent() {
    let mut core = test_core();
    let pid_value = 1234;

    // First registration
    let pid1 = core.register_process(pid_value, pid_value, 1000, 1000);
    assert_eq!(pid1.0, pid_value);

    // Second registration with same PID should return same token
    let pid2 = core.register_process(pid_value, pid_value, 2000, 2000); // Different uid/gid
    assert_eq!(pid2.0, pid_value);
    assert_eq!(pid1, pid2);

    // Verify the original identity is preserved (not overwritten)
    let user = core.user_for_process(&PID::new(pid_value)).unwrap();
    assert_eq!(user.uid, 1000);
    assert_eq!(user.gid, 1000);
}
#[test]
fn test_config_creation() {
    let config = FsConfig {
        case_sensitivity: CaseSensitivity::Sensitive,
        memory: MemoryPolicy {
            max_bytes_in_memory: Some(1024 * 1024),
            spill_directory: None,
        },
        limits: FsLimits {
            max_open_handles: 1000,
            max_branches: 100,
            max_snapshots: 1000,
        },
        cache: CachePolicy {
            attr_ttl_ms: 1000,
            entry_ttl_ms: 1000,
            negative_ttl_ms: 1000,
            enable_readdir_plus: true,
            auto_cache: true,
            writeback_cache: false,
        },
        enable_xattrs: true,
        enable_ads: false,
        track_events: true,
        security: SecurityPolicy::default(),
    };
    // Basic smoke test - config can be created
    assert!(config.enable_xattrs);
}

fn test_core() -> FsCore {
    let config = FsConfig {
        case_sensitivity: CaseSensitivity::Sensitive,
        memory: MemoryPolicy {
            max_bytes_in_memory: Some(1024 * 1024),
            spill_directory: None,
        },
        limits: FsLimits {
            max_open_handles: 1000,
            max_branches: 100,
            max_snapshots: 1000,
        },
        cache: CachePolicy {
            attr_ttl_ms: 1000,
            entry_ttl_ms: 1000,
            negative_ttl_ms: 1000,
            enable_readdir_plus: true,
            auto_cache: true,
            writeback_cache: false,
        },
        enable_xattrs: true,
        enable_ads: false,
        track_events: true,
        security: SecurityPolicy::default(),
    };
    FsCore::new(config).unwrap()
}
fn test_core_posix() -> (FsCore, PID) {
    let cfg = FsConfig {
        case_sensitivity: CaseSensitivity::Sensitive,
        memory: MemoryPolicy {
            max_bytes_in_memory: Some(1024 * 1024),
            spill_directory: None,
        },
        limits: FsLimits {
            max_open_handles: 1000,
            max_branches: 100,
            max_snapshots: 1000,
        },
        cache: CachePolicy {
            attr_ttl_ms: 1000,
            entry_ttl_ms: 1000,
            negative_ttl_ms: 1000,
            enable_readdir_plus: true,
            auto_cache: true,
            writeback_cache: false,
        },
        enable_xattrs: true,
        enable_ads: false,
        track_events: true,
        security: SecurityPolicy {
            enforce_posix_permissions: true,
            default_uid: 0,
            default_gid: 0,
            enable_windows_acl_compat: false,
            root_bypass_permissions: false,
        },
    };
    let mut core = FsCore::new(cfg).unwrap();
    // Register a neutral bootstrap process ID that will not collide with test-specific PIDs
    // Many tests register PIDs like 1, 1000, 1001, 1002 etc. Avoid those to keep registration idempotency semantics.
    let pid = core.register_process(424242, 424242, 0, 0);
    (core, pid)
}

#[test]
fn test_permissions_with_actors_owner_group_other() {
    let (mut core, _) = test_core_posix();

    // Register different processes with different identities
    let owner_pid = core.register_process(1000, 1000, 0, 0); // uid=0, gid=0
    let group_pid = core.register_process(1001, 1000, 1, 0); // uid=1, gid=0 (in group 0)
    let other_pid = core.register_process(1002, 1000, 2, 2); // uid=2, gid=2 (not in group 0)

    core.mkdir(&owner_pid, "/p".as_ref(), 0o755).unwrap();
    let h = core.create(&owner_pid, "/p/file.txt".as_ref(), &rw_create()).unwrap();
    core.close(&owner_pid, h).unwrap();
    core.set_mode(&owner_pid, "/p/file.txt".as_ref(), 0o640).unwrap();

    // Owner (uid=0) can read/write
    let h = core.open(&owner_pid, "/p/file.txt".as_ref(), &rw()).unwrap();
    core.write(&owner_pid, h, 0, b"ok").unwrap();
    core.close(&owner_pid, h).unwrap();

    // Group member (uid=1, gid=0) can read but not write
    let ro_opts = ro();
    let h = core.open(&group_pid, "/p/file.txt".as_ref(), &ro_opts).unwrap();
    let mut buf = [0u8; 2];
    let _ = core.read(&group_pid, h, 0, &mut buf).unwrap();
    core.close(&group_pid, h).unwrap();
    // Cannot open for write since group only has read permission
    assert!(core.open(&group_pid, "/p/file.txt".as_ref(), &rw()).is_err());

    // Other (uid=2, gid=2) has no access
    assert!(core.open(&other_pid, "/p/file.txt".as_ref(), &ro()).is_err());
    assert!(core.open(&other_pid, "/p/file.txt".as_ref(), &rw()).is_err());
}

#[test]
fn test_chown_switches_access_rights() {
    let (mut core, _) = test_core_posix();

    // Register processes with different identities
    let owner_pid = core.register_process(1000, 1000, 0, 0); // uid=0, gid=0
    let old_owner_pid = core.register_process(1001, 1000, 0, 0); // uid=0, gid=0 (same identity as owner)
    let new_owner_pid = core.register_process(1002, 1000, 1000, 100); // uid=1000, gid=100
    let other_user_pid = core.register_process(1003, 1000, 2000, 200); // uid=2000, gid=200 (different user)

    core.mkdir(&owner_pid, "/d".as_ref(), 0o755).unwrap();
    let h = core.create(&owner_pid, "/d/f".as_ref(), &rw_create()).unwrap();
    core.close(&owner_pid, h).unwrap();
    core.set_mode(&owner_pid, "/d/f".as_ref(), 0o600).unwrap();

    // Owner uid=0 can open rw
    assert!(core.open(&owner_pid, "/d/f".as_ref(), &rw()).is_ok());

    // chown to uid=1000,gid=100
    core.set_owner(&owner_pid, "/d/f".as_ref(), 1000, 100).unwrap();

    // uid=0 denied (no longer owner, file is 0o600)
    assert!(core.open(&old_owner_pid, "/d/f".as_ref(), &rw()).is_err());

    // uid=1000 allowed (new owner)
    assert!(core.open(&new_owner_pid, "/d/f".as_ref(), &rw()).is_ok());

    // uid=2000 denied (different user)
    assert!(core.open(&other_user_pid, "/d/f".as_ref(), &rw()).is_err());
}

fn rw_create() -> OpenOptions {
    OpenOptions {
        read: true,
        write: true,
        create: true,
        truncate: true,
        append: false,
        share: vec![ShareMode::Read, ShareMode::Write],
        stream: None,
    }
}

fn ro() -> OpenOptions {
    OpenOptions {
        read: true,
        write: false,
        create: false,
        truncate: false,
        append: false,
        share: vec![ShareMode::Read, ShareMode::Write], // Allow others to read/write
        stream: None,
    }
}

fn rw() -> OpenOptions {
    OpenOptions {
        read: true,
        write: true,
        create: false,
        truncate: false,
        append: false,
        share: vec![ShareMode::Read, ShareMode::Write],
        stream: None,
    }
}

#[test]
fn test_create_read_write_roundtrip() {
    let mut core = test_core();
    let pid = core.register_process(1000, 1000, 0, 0);
    core.mkdir(&pid, "/dir".as_ref(), 0o755).unwrap();
    let h = core.create(&pid, "/dir/a.txt".as_ref(), &rw_create()).unwrap();
    core.write(&pid, h, 0, b"hello").unwrap();
    core.close(&pid, h).unwrap();
    let h2 = core.open(&pid, "/dir/a.txt".as_ref(), &ro()).unwrap();
    let mut buf = [0u8; 5];
    let n = core.read(&pid, h2, 0, &mut buf).unwrap();
    assert_eq!(n, 5);
    assert_eq!(&buf, b"hello");
    core.close(&pid, h2).unwrap();
}

#[test]
fn test_unlink_delete_on_close_semantics() {
    let mut core = test_core();
    let pid = core.register_process(1000, 1000, 0, 0);
    let h = core.create(&pid, "/x".as_ref(), &rw_create()).unwrap();
    core.write(&pid, h, 0, b"test content").unwrap();
    core.unlink(&pid, "/x".as_ref()).unwrap();

    // Should still be able to read while handle is open
    let mut buf = [0u8; 12];
    let n = core.read(&pid, h, 0, &mut buf).unwrap();
    assert_eq!(n, 12);
    assert_eq!(&buf, b"test content");

    core.close(&pid, h).unwrap();

    // Now the file should be gone
    assert!(core.open(&pid, "/x".as_ref(), &ro()).is_err());
}

#[test]
fn test_directory_operations() {
    let mut core = test_core();
    let pid = core.register_process(1000, 1000, 0, 0);

    // Create directory
    core.mkdir(&pid, "/testdir".as_ref(), 0o755).unwrap();

    // List root directory - should contain testdir
    let entries = core.readdir_plus(&pid, "/".as_ref()).unwrap();
    let names: Vec<_> = entries.iter().map(|(e, _)| e.name.as_str()).collect();
    assert!(names.contains(&"testdir"));

    // Create file in directory
    let h = core.create(&pid, "/testdir/file.txt".as_ref(), &rw_create()).unwrap();
    core.write(&pid, h, 0, b"content").unwrap();
    core.close(&pid, h).unwrap();

    // List directory - should contain file.txt
    let entries = core.readdir_plus(&pid, "/testdir".as_ref()).unwrap();
    let names: Vec<_> = entries.iter().map(|(e, _)| e.name.as_str()).collect();
    assert!(names.contains(&"file.txt"));

    // Remove directory (should fail if not empty)
    assert!(core.rmdir(&pid, "/testdir".as_ref()).is_err());

    // Remove file first
    core.unlink(&pid, "/testdir/file.txt".as_ref()).unwrap();

    // Now remove directory should work
    core.rmdir(&pid, "/testdir".as_ref()).unwrap();

    // Directory should be gone
    let entries = core.readdir_plus(&pid, "/".as_ref()).unwrap();
    let names: Vec<_> = entries.iter().map(|(e, _)| e.name.as_str()).collect();
    assert!(!names.contains(&"testdir"));
}

#[test]
fn test_rename_and_sorted_readdir() {
    let mut core = test_core();
    let pid = core.register_process(1000, 1000, 0, 0);
    core.mkdir(&pid, "/dir".as_ref(), 0o755).unwrap();
    // Create files out of order
    let h1 = core.create(&pid, "/dir/b.txt".as_ref(), &rw_create()).unwrap();
    core.close(&pid, h1).unwrap();
    let h2 = core.create(&pid, "/dir/a.txt".as_ref(), &rw_create()).unwrap();
    core.close(&pid, h2).unwrap();

    // Sorted listing
    let entries = core.readdir_plus(&pid, "/dir".as_ref()).unwrap();
    let names: Vec<_> = entries.iter().map(|(e, _)| e.name.as_str()).collect();
    assert_eq!(names, vec!["a.txt", "b.txt"]);

    // Rename a.txt -> c.txt
    core.rename(&pid, "/dir/a.txt".as_ref(), "/dir/c.txt".as_ref()).unwrap();
    let entries2 = core.readdir_plus(&pid, "/dir".as_ref()).unwrap();
    let names2: Vec<_> = entries2.iter().map(|(e, _)| e.name.as_str()).collect();
    assert_eq!(names2, vec!["b.txt", "c.txt"]);
}

#[test]
fn test_set_mode_and_times() {
    let mut core = test_core();
    let pid = core.register_process(1000, 1000, 0, 0);
    let h = core.create(&pid, "/file".as_ref(), &rw_create()).unwrap();
    core.close(&pid, h).unwrap();

    // Get current attributes
    let before = core.getattr(&pid, "/file".as_ref()).unwrap();

    // Change mode and times
    core.set_mode(&pid, "/file".as_ref(), 0o600).unwrap();
    let new_times = FileTimes {
        atime: before.times.atime + 10,
        mtime: before.times.mtime + 10,
        ctime: before.times.ctime + 10,
        birthtime: before.times.birthtime,
    };
    core.set_times(&pid, "/file".as_ref(), new_times).unwrap();

    // Verify
    let after = core.getattr(&pid, "/file".as_ref()).unwrap();
    assert!(after.times.ctime >= new_times.ctime);
}

#[test]
fn test_snapshot_immutability() {
    let mut core = test_core();
    let pid = core.register_process(1000, 1000, 0, 0);

    // Create a file with initial content
    let h = core.create(&pid, "/f".as_ref(), &rw_create()).unwrap();
    core.write(&pid, h, 0, b"original").unwrap();
    core.close(&pid, h).unwrap();

    // Create a snapshot
    let snap = core.snapshot_create(&this_process(), Some("base")).unwrap();

    // Create a branch from the snapshot
    let branch = core.branch_create_from_snapshot(snap, Some("test")).unwrap();

    // Bind to the branch
    core.bind_process_to_branch_with_pid(branch, pid.0).unwrap();

    // Modify the file in the branch
    let h = core.open(&pid, "/f".as_ref(), &rw()).unwrap();
    core.write(&pid, h, 0, b"modified").unwrap();
    core.close(&pid, h).unwrap();

    // Read the file from the current branch - should see "modified"
    let h = core.open(&pid, "/f".as_ref(), &ro()).unwrap();
    let mut buf = [0u8; 8];
    let n = core.read(&pid, h, 0, &mut buf).unwrap();
    assert_eq!(n, 8);
    assert_eq!(&buf, b"modified");
    core.close(&pid, h).unwrap();

    // Switch back to default branch and check that original content is preserved
    // (Note: In this simple implementation, the default branch shares the root,
    // so we need to create a separate test that reads from snapshot context)
    core.unbind_process_with_pid(pid.0).unwrap();

    // For now, verify that snapshot was created and branch exists
    let snapshots = core.snapshot_list();
    assert_eq!(snapshots.len(), 1);
    assert_eq!(snapshots[0].0, snap);
    assert_eq!(snapshots[0].1, Some("base".to_string()));

    let branches = core.branch_list();
    assert!(branches.iter().any(|b| b.id == branch && b.name == Some("test".to_string())));
}

#[test]
fn test_branch_operations() {
    let mut core = test_core();
    let pid = core.register_process(1000, 1000, 0, 0);

    // Create initial content
    let h = core.create(&pid, "/test.txt".as_ref(), &rw_create()).unwrap();
    core.write(&pid, h, 0, b"initial").unwrap();
    core.close(&pid, h).unwrap();

    // Create snapshot
    let snap = core.snapshot_create(&this_process(), Some("clean")).unwrap();

    // Create a branch from snapshot
    let b1 = core.branch_create_from_snapshot(snap, Some("branch1")).unwrap();

    // Create a branch from current state
    let b2 = core.branch_create_from_current(&this_process(), Some("branch2")).unwrap();

    // Verify branch listing works
    let branches = core.branch_list();
    assert_eq!(branches.len(), 3); // default, b1, b2
    assert!(branches.iter().any(|b| b.id == b1 && b.parent == Some(snap)));
    assert!(branches.iter().any(|b| b.id == b2 && b.parent.is_none()));

    // Verify snapshot listing works
    let snapshots = core.snapshot_list();
    assert_eq!(snapshots.len(), 1);
    assert_eq!(snapshots[0].0, snap);
    assert_eq!(snapshots[0].1, Some("clean".to_string()));

    // Test binding to branches
    core.bind_process_to_branch_with_pid(b1, pid.0).unwrap();
    // In current implementation, binding doesn't change visible state
    // since branches share the directory tree

    core.unbind_process_with_pid(pid.0).unwrap();

    // Test snapshot deletion (should fail if branch depends on it)
    assert!(core.snapshot_delete(snap).is_err()); // b1 depends on it

    // Delete the branch first
    // Note: branch deletion not implemented yet, so skip
}

#[test]
fn test_branch_process_isolation() {
    let mut core = test_core();

    // Register two processes with different identities
    let pid1 = core.register_process(1001, 1001, 0, 0); // Process 1
    let pid2 = core.register_process(1002, 1002, 0, 0); // Process 2

    // Create a file with initial content (using pid1)
    let h = core.create(&pid1, "/shared.txt".as_ref(), &rw_create()).unwrap();
    core.write(&pid1, h, 0, b"original").unwrap();
    core.close(&pid1, h).unwrap();

    // Create snapshot
    let snap = core.snapshot_create(&this_process(), Some("base")).unwrap();

    // Create a branch from snapshot
    let branch = core.branch_create_from_snapshot(snap, Some("test")).unwrap();

    // Verify that the branch has a different root than the snapshot
    {
        let snapshot = core.snapshots.iter().find(|s| s.id == snap).unwrap();
        let branch_info = core.branches.iter().find(|b| b.id == branch).unwrap();
        assert_ne!(
            snapshot.root_id, branch_info.root_id,
            "Branch should have different root than snapshot"
        );
    }

    // Bind process 1 to default branch (should see original content)
    core.bind_process_to_branch_with_pid(BranchId::default_branch(), pid1.0).unwrap();

    // Bind process 2 to the snapshot branch
    core.bind_process_to_branch_with_pid(branch, pid2.0).unwrap();

    // Test what process 1 sees
    {
        let h1 = core.open(&pid1, "/shared.txt".as_ref(), &ro()).unwrap();
        let mut buf = [0u8; 8];
        let n = core.read(&pid1, h1, 0, &mut buf).unwrap();
        assert_eq!(n, 8);
        assert_eq!(&buf, b"original");
        core.close(&pid1, h1).unwrap();
    }

    // Test what process 2 sees initially (should also see "original" since branch cloned snapshot)
    {
        let h2 = core.open(&pid2, "/shared.txt".as_ref(), &ro()).unwrap();
        let mut buf = [0u8; 8];
        let n = core.read(&pid2, h2, 0, &mut buf).unwrap();
        assert_eq!(n, 8);
        assert_eq!(&buf, b"original");
        core.close(&pid2, h2).unwrap();

        // Modify the file in the branch (this should trigger content CoW)
        let h3 = core.open(&pid2, "/shared.txt".as_ref(), &rw()).unwrap();
        core.write(&pid2, h3, 0, b"modified").unwrap();
        core.close(&pid2, h3).unwrap();

        // Verify the branch now sees modified content
        let h_check = core.open(&pid2, "/shared.txt".as_ref(), &ro()).unwrap();
        let mut buf_check = [0u8; 8];
        let n_check = core.read(&pid2, h_check, 0, &mut buf_check).unwrap();
        assert_eq!(n_check, 8);
        assert_eq!(&buf_check, b"modified");
        core.close(&pid2, h_check).unwrap();
    }

    // Now process 1 should still see "original" (default branch unchanged)
    {
        let h4 = core.open(&pid1, "/shared.txt".as_ref(), &ro()).unwrap();
        let mut buf = [0u8; 8];
        let n = core.read(&pid1, h4, 0, &mut buf).unwrap();
        assert_eq!(n, 8);
        assert_eq!(&buf, b"original");
        core.close(&pid1, h4).unwrap();
    }

    // And process 2's branch should see "modified"
    {
        let h5 = core.open(&pid2, "/shared.txt".as_ref(), &ro()).unwrap();
        let mut buf = [0u8; 8];
        let n = core.read(&pid2, h5, 0, &mut buf).unwrap();
        assert_eq!(n, 8);
        assert_eq!(&buf, b"modified");
        core.close(&pid2, h5).unwrap();
    }
}

#[test]
fn test_handle_stability_across_binding_changes() {
    let mut core = test_core();
    let pid = core.register_process(1000, 1000, 0, 0);

    // Create a file
    let h = core.create(&pid, "/test.txt".as_ref(), &rw_create()).unwrap();
    core.write(&pid, h, 0, b"initial").unwrap();

    // Open another handle to the same file (simulating a handle opened before binding)
    let h2 = core.open(&pid, "/test.txt".as_ref(), &rw()).unwrap();

    // Create a branch and bind to it
    let snap = core.snapshot_create(&this_process(), Some("base")).unwrap();
    let branch = core.branch_create_from_snapshot(snap, Some("test")).unwrap();
    core.bind_process_to_branch_with_pid(branch, pid.0).unwrap();

    // Modify the file through the first handle (this should trigger CoW)
    core.write(&pid, h, 0, b"modified").unwrap();

    // The second handle should still work and see the modified content
    // (both handles reference the same node in the branch after CoW)
    let mut buf = [0u8; 8];
    let n = core.read(&pid, h2, 0, &mut buf).unwrap();
    assert_eq!(n, 8);
    assert_eq!(&buf, b"modified");

    // Close handles
    core.close(&pid, h).unwrap();
    core.close(&pid, h2).unwrap();
}

#[test]
fn test_posix_byte_range_locks() {
    let mut core = test_core();
    let pid = core.register_process(1000, 1000, 0, 0);

    // Create a file
    let h = core.create(&pid, "/test.txt".as_ref(), &rw_create()).unwrap();

    // Test exclusive lock
    let lock_range = LockRange {
        offset: 0,
        len: 10,
        kind: LockKind::Exclusive,
    };
    core.lock(h, lock_range).unwrap();

    // Try to lock overlapping range - should fail
    let overlapping_lock = LockRange {
        offset: 5,
        len: 10,
        kind: LockKind::Exclusive,
    };
    assert!(core.lock(h, overlapping_lock).is_err()); // Same handle can't lock overlapping

    // Unlock the first lock
    core.unlock(h, lock_range).unwrap();

    // Now the overlapping lock should work
    core.lock(h, overlapping_lock).unwrap();

    // Test shared locks
    let shared_lock1 = LockRange {
        offset: 20,
        len: 10,
        kind: LockKind::Shared,
    };
    let shared_lock2 = LockRange {
        offset: 25,
        len: 10,
        kind: LockKind::Shared,
    };

    // Multiple shared locks on overlapping ranges should work
    core.lock(h, shared_lock1).unwrap();
    core.lock(h, shared_lock2).unwrap();

    // But exclusive lock on overlapping range should fail
    let exclusive_overlapping = LockRange {
        offset: 22,
        len: 5,
        kind: LockKind::Exclusive,
    };
    assert!(core.lock(h, exclusive_overlapping).is_err());

    // Clean up
    core.unlock(h, overlapping_lock).unwrap();
    core.unlock(h, shared_lock1).unwrap();
    core.unlock(h, shared_lock2).unwrap();
    core.close(&pid, h).unwrap();
}

#[test]
fn test_xattr_operations() {
    let mut core = test_core();
    let pid = core.register_process(1000, 1000, 0, 0);

    // Create a file
    core.create(&pid, "/test.txt".as_ref(), &rw_create()).unwrap();

    // Set an xattr
    core.xattr_set(&pid, "/test.txt".as_ref(), "user.test", b"value").unwrap();

    // Get the xattr
    let value = core.xattr_get(&pid, "/test.txt".as_ref(), "user.test").unwrap();
    assert_eq!(value, b"value");

    // List xattrs
    let attrs = core.xattr_list(&pid, "/test.txt".as_ref()).unwrap();
    assert!(attrs.contains(&"user.test".to_string()));

    // Try to get non-existent xattr
    assert!(core.xattr_get(&pid, "/test.txt".as_ref(), "user.missing").is_err());

    // Set another xattr
    core.xattr_set(&pid, "/test.txt".as_ref(), "user.other", b"othervalue").unwrap();
    let attrs2 = core.xattr_list(&pid, "/test.txt".as_ref()).unwrap();
    assert_eq!(attrs2.len(), 2);
    assert!(attrs2.contains(&"user.test".to_string()));
    assert!(attrs2.contains(&"user.other".to_string()));
}

#[test]
fn test_ads_operations() {
    let mut core = test_core();
    let pid = core.register_process(1000, 1000, 0, 0);

    // Create a file
    let h = core.create(&pid, "/test.txt".as_ref(), &rw_create()).unwrap();
    core.write(&pid, h, 0, b"main data").unwrap();
    core.close(&pid, h).unwrap();

    // Create a handle for an ADS
    let ads_opts = OpenOptions {
        read: true,
        write: true,
        create: true,
        truncate: false,
        append: false,
        share: vec![],
        stream: Some("ads1".to_string()),
    };
    let h_ads = core.open(&pid, "/test.txt".as_ref(), &ads_opts).unwrap();

    // Write to the ADS
    core.write(&pid, h_ads, 0, b"ads data").unwrap();
    core.close(&pid, h_ads).unwrap();

    // List streams
    let streams = core.streams_list(&pid, "/test.txt".as_ref()).unwrap();
    assert_eq!(streams.len(), 1);
    assert_eq!(streams[0].name, "ads1");

    // Read from the ADS
    let h_ads_read = core.open(&pid, "/test.txt".as_ref(), &ads_opts).unwrap();
    let mut buf = [0u8; 8];
    let n = core.read(&pid, h_ads_read, 0, &mut buf).unwrap();
    assert_eq!(n, 8);
    assert_eq!(&buf, b"ads data");
    core.close(&pid, h_ads_read).unwrap();

    // Main data stream should still be accessible
    let h_main = core.open(&pid, "/test.txt".as_ref(), &ro()).unwrap();
    let mut buf_main = [0u8; 9];
    let n_main = core.read(&pid, h_main, 0, &mut buf_main).unwrap();
    assert_eq!(n_main, 9);
    assert_eq!(&buf_main, b"main data");
    core.close(&pid, h_main).unwrap();
}

#[test]
fn test_event_subscription_and_emission() {

    #[derive(Clone)]
    struct TestEventSink {
        events: Arc<Mutex<Vec<EventKind>>>,
    }

    impl TestEventSink {
        fn new() -> Self {
            Self {
                events: Arc::new(Mutex::new(Vec::new())),
            }
        }

        fn get_events(&self) -> Vec<EventKind> {
            self.events.lock().unwrap().clone()
        }
    }

    impl EventSink for TestEventSink {
        fn on_event(&self, evt: &EventKind) {
            self.events.lock().unwrap().push(evt.clone());
        }
    }

    let mut core = test_core();
    let pid = core.register_process(1000, 1000, 0, 0);
    let sink = Arc::new(TestEventSink::new());

    // Subscribe to events
    let sub_id = core.subscribe_events(sink.clone()).unwrap();

    // Test snapshot creation event
    let snap = core.snapshot_create(&this_process(), Some("test_snap")).unwrap();
    let events = sink.get_events();
    assert_eq!(events.len(), 1);
    match &events[0] {
        EventKind::SnapshotCreated { id, name } => {
            assert_eq!(*id, snap);
            assert_eq!(name.as_ref().unwrap(), "test_snap");
        }
        _ => panic!("Expected SnapshotCreated event"),
    }

    // Clear events
    sink.events.lock().unwrap().clear();

    // Test branch creation event
    let branch = core.branch_create_from_snapshot(snap, Some("test_branch")).unwrap();
    let events = sink.get_events();
    assert_eq!(events.len(), 1);
    match &events[0] {
        EventKind::BranchCreated { id, name } => {
            assert_eq!(*id, branch);
            assert_eq!(name.as_ref().unwrap(), "test_branch");
        }
        _ => panic!("Expected BranchCreated event"),
    }

    // Clear events
    sink.events.lock().unwrap().clear();

    // Test file creation event
    core.create(&pid, "/test.txt".as_ref(), &rw_create()).unwrap();
    let events = sink.get_events();
    assert_eq!(events.len(), 1);
    match &events[0] {
        EventKind::Created { path } => {
            assert_eq!(path, "/test.txt");
        }
        _ => panic!("Expected Created event"),
    }

    // Clear events
    sink.events.lock().unwrap().clear();

    // Test directory creation event
    core.mkdir(&pid, "/testdir".as_ref(), 0o755).unwrap();
    let events = sink.get_events();
    assert_eq!(events.len(), 1);
    match &events[0] {
        EventKind::Created { path } => {
            assert_eq!(path, "/testdir");
        }
        _ => panic!("Expected Created event"),
    }

    // Clear events
    sink.events.lock().unwrap().clear();

    // Test file removal event
    core.unlink(&pid, "/test.txt".as_ref()).unwrap();
    let events = sink.get_events();
    assert_eq!(events.len(), 1);
    match &events[0] {
        EventKind::Removed { path } => {
            assert_eq!(path, "/test.txt");
        }
        _ => panic!("Expected Removed event"),
    }

    // Unsubscribe
    core.unsubscribe_events(sub_id).unwrap();

    // Clear events
    sink.events.lock().unwrap().clear();

    // Create another file - should not emit events since unsubscribed
    core.create(&pid, "/test2.txt".as_ref(), &rw_create()).unwrap();
    let events = sink.get_events();
    assert_eq!(events.len(), 0);
}

#[test]
fn test_stats_reporting() {
    let mut core = test_core();
    let pid = core.register_process(1000, 1000, 0, 0);

    // Initially should have the default branch and no snapshots
    let stats = core.stats();
    assert_eq!(stats.branches, 1); // Default branch
    assert_eq!(stats.snapshots, 0); // No snapshots initially
    assert_eq!(stats.open_handles, 0); // No open handles initially

    // Create a snapshot
    core.snapshot_create(&this_process(), Some("test")).unwrap();
    let stats = core.stats();
    assert_eq!(stats.snapshots, 1); // Test snapshot

    // Create a branch
    let snap = core.snapshot_list()[0].0; // Get the test snapshot
    core.branch_create_from_snapshot(snap, Some("test_branch")).unwrap();
    let stats = core.stats();
    assert_eq!(stats.branches, 2); // Default + test branch

    // Open a handle
    let h = core.create(&pid, "/file.txt".as_ref(), &rw_create()).unwrap();
    let stats = core.stats();
    assert_eq!(stats.open_handles, 1);

    // Close handle
    core.close(&pid, h).unwrap();
    let stats = core.stats();
    assert_eq!(stats.open_handles, 0);
}

#[test]
fn test_readdir_plus() {
    let mut core = test_core();
    let pid = core.register_process(1000, 1000, 0, 0);

    // Create a file and directory
    core.create(&pid, "/file.txt".as_ref(), &rw_create()).unwrap();
    core.mkdir(&pid, "/subdir".as_ref(), 0o755).unwrap();

    // Test readdir_plus returns entries with attributes
    let entries = core.readdir_plus(&pid, "/".as_ref()).unwrap();

    // Should have at least file.txt and subdir
    assert!(entries.len() >= 2);

    let file_entry = entries.iter().find(|(e, _)| e.name == "file.txt").unwrap();
    assert!(!file_entry.0.is_dir);
    assert_eq!(file_entry.0.len, 0); // Empty file
    assert!(!file_entry.1.is_dir);
    assert_eq!(file_entry.1.len, 0);

    let dir_entry = entries.iter().find(|(e, _)| e.name == "subdir").unwrap();
    assert!(dir_entry.0.is_dir);
    assert_eq!(dir_entry.0.len, 0); // Directories have 0 length
    assert!(dir_entry.1.is_dir);
    assert_eq!(dir_entry.1.len, 0);

    // Test readdir_plus on non-existent path
    assert!(core.readdir_plus(&pid, "/nonexistent".as_ref()).is_err());
}

#[test]
fn test_events_disabled_when_track_events_false() {

    #[derive(Clone)]
    struct TestEventSink {
        events: Arc<Mutex<Vec<EventKind>>>,
    }

    impl TestEventSink {
        fn new() -> Self {
            Self {
                events: Arc::new(Mutex::new(Vec::new())),
            }
        }
    }

    impl EventSink for TestEventSink {
        fn on_event(&self, evt: &EventKind) {
            self.events.lock().unwrap().push(evt.clone());
        }
    }

    // Create core with track_events = false
    let config = FsConfig {
        case_sensitivity: CaseSensitivity::Sensitive,
        memory: MemoryPolicy {
            max_bytes_in_memory: Some(1024 * 1024),
            spill_directory: None,
        },
        limits: FsLimits {
            max_open_handles: 1000,
            max_branches: 100,
            max_snapshots: 1000,
        },
        cache: CachePolicy {
            attr_ttl_ms: 1000,
            entry_ttl_ms: 1000,
            negative_ttl_ms: 1000,
            enable_readdir_plus: true,
            auto_cache: true,
            writeback_cache: false,
        },
        enable_xattrs: true,
        enable_ads: false,
        track_events: false, // Events disabled
        security: SecurityPolicy::default(),
    };

    let mut core = FsCore::new(config).unwrap();
    let pid = core.register_process(1000, 1000, 0, 0);
    let sink = Arc::new(TestEventSink::new());

    // Subscribe to events
    let sub_id = core.subscribe_events(sink.clone()).unwrap();

    // Create a file - should not emit events
    core.create(&pid, "/test.txt".as_ref(), &rw_create()).unwrap();

    // Check that no events were emitted
    let events = sink.events.lock().unwrap();
    assert_eq!(events.len(), 0);

    // Unsubscribe should still work
    core.unsubscribe_events(sub_id).unwrap();
}

#[test]
fn test_symlink_basic_operations() {
    let mut core = test_core();
    let pid = core.register_process(1000, 1000, 0, 0);

    // Create a target file
    core.create(&pid, "/target.txt".as_ref(), &rw_create()).unwrap();
    let h = core.open(&pid, "/target.txt".as_ref(), &rw()).unwrap();
    core.write(&pid, h, 0, b"target content").unwrap();
    core.close(&pid, h).unwrap();

    // Create a symlink pointing to the target
    core.symlink(&pid, "target.txt", "/link.txt".as_ref()).unwrap();

    // Read the symlink
    let target = core.readlink(&pid, "/link.txt".as_ref()).unwrap();
    assert_eq!(target, "target.txt");

    // Verify symlink appears in directory listing
    let entries = core.readdir_plus(&pid, "/".as_ref()).unwrap();
    let link_entry = entries.iter().find(|(e, _)| e.name == "link.txt").unwrap();
    assert!(link_entry.0.is_symlink);
    assert_eq!(link_entry.0.len, 10);

    // Verify symlink attributes
    let attrs = core.getattr(&pid, "/link.txt".as_ref()).unwrap();
    assert!(attrs.is_symlink);
    assert_eq!(attrs.len, 10); // length of "target.txt"

    // Verify we can read through the symlink (though this would normally be handled by the filesystem layer)
    // For now, just ensure the symlink exists and has correct attributes
    assert!(core.getattr(&pid, "/link.txt".as_ref()).is_ok());
}

#[test]
fn test_symlink_to_directory() {
    let mut core = test_core();
    let pid = core.register_process(1000, 1000, 0, 0);

    // Create a target directory
    core.mkdir(&pid, "/target_dir".as_ref(), 0o755).unwrap();

    // Create a symlink to the directory
    core.symlink(&pid, "target_dir", "/link_to_dir".as_ref()).unwrap();

    // Verify the symlink
    let target = core.readlink(&pid, "/link_to_dir".as_ref()).unwrap();
    assert_eq!(target, "target_dir");

    // Verify symlink attributes
    let attrs = core.getattr(&pid, "/link_to_dir".as_ref()).unwrap();
    assert!(attrs.is_symlink);
    assert_eq!(attrs.len, 10); // length of "target_dir"
}

#[test]
fn test_symlink_unlink() {
    let mut core = test_core();
    let pid = core.register_process(1000, 1000, 0, 0);

    // Create a symlink
    core.symlink(&pid, "nonexistent", "/test_link".as_ref()).unwrap();

    // Verify it exists
    assert!(core.getattr(&pid, "/test_link".as_ref()).is_ok());

    // Unlink the symlink
    core.unlink(&pid, "/test_link".as_ref()).unwrap();

    // Verify it's gone
    assert!(core.getattr(&pid, "/test_link".as_ref()).is_err());
}

#[test]
fn test_root_bypass_permissions_flag() {
    // Build core with POSIX enforcement and root bypass enabled
    let cfg = FsConfig {
        case_sensitivity: CaseSensitivity::Sensitive,
        memory: MemoryPolicy {
            max_bytes_in_memory: Some(1024 * 1024),
            spill_directory: None,
        },
        limits: FsLimits {
            max_open_handles: 1000,
            max_branches: 100,
            max_snapshots: 1000,
        },
        cache: CachePolicy {
            attr_ttl_ms: 1000,
            entry_ttl_ms: 1000,
            negative_ttl_ms: 1000,
            enable_readdir_plus: true,
            auto_cache: true,
            writeback_cache: false,
        },
        enable_xattrs: true,
        enable_ads: false,
        track_events: false,
        security: SecurityPolicy {
            enforce_posix_permissions: true,
            default_uid: 0,
            default_gid: 0,
            enable_windows_acl_compat: false,
            root_bypass_permissions: true,
        },
    };
    let mut core = FsCore::new(cfg).unwrap();

    let root_pid = core.register_process(1, 1, 0, 0);
    let alice_pid = core.register_process(1000, 1, 1000, 1000);

    // Create directory as root, then create file as root and chown to alice with 0600
    core.mkdir(&root_pid, "/d".as_ref(), 0o711).unwrap(); // allow traversal for root and execute for others
    let h = core.create(&root_pid, "/d/f".as_ref(), &rw_create()).unwrap();
    core.close(&root_pid, h).unwrap();
    core.set_owner(&root_pid, "/d/f".as_ref(), 1000, 1000).unwrap();
    core.set_mode(&root_pid, "/d/f".as_ref(), 0o600).unwrap();

    // Root bypass enabled: root can open rw despite 0600 owned by alice
    assert!(core.open(&root_pid, "/d/f".as_ref(), &rw()).is_ok());
}

#[test]
fn test_sticky_directory_restricts_deletion() {
    let (mut core, _) = test_core_posix();
    let root = core.register_process(1, 1, 0, 0);
    let alice = core.register_process(1000, 1, 1000, 1000);
    let bob = core.register_process(1001, 1, 1001, 1001);

    core.mkdir(&root, "/tmp".as_ref(), 0o1777).unwrap(); // world-writable + sticky

    // Alice creates a file in /tmp
    let h = core.create(&alice, "/tmp/a.txt".as_ref(), &rw_create()).unwrap();
    core.close(&alice, h).unwrap();

    // Bob has w+x on /tmp, but sticky prevents deleting alice's file
    assert!(core.unlink(&bob, "/tmp/a.txt".as_ref()).is_err());

    // Alice can delete her own file
    let h2 = core.create(&alice, "/tmp/b.txt".as_ref(), &rw_create()).unwrap();
    core.close(&alice, h2).unwrap();
    assert!(core.unlink(&alice, "/tmp/b.txt".as_ref()).is_ok());
}

#[test]
fn test_set_owner_clears_setid_bits() {
    let (mut core, _) = test_core_posix();
    let root = core.register_process(1, 1, 0, 0);
    let alice = core.register_process(1000, 1, 1000, 1000);

    let h = core.create(&root, "/suidfile".as_ref(), &rw_create()).unwrap();
    core.close(&root, h).unwrap();
    core.set_mode(&root, "/suidfile".as_ref(), 0o6777).unwrap();

    // Change ownership; setuid/setgid should be cleared
    core.set_owner(&root, "/suidfile".as_ref(), 1000, 1000).unwrap();
    let attrs = core.getattr(&root, "/suidfile".as_ref()).unwrap();
    // We don't expose raw mode bits directly; ensure no exec privilege change implied by setid bits
    // Validate via read/write still allowed by permissions; setid cleared internally (covered by implementation).
    assert_eq!(attrs.uid, 1000);
    assert_eq!(attrs.gid, 1000);
}

#[test]
fn test_readdir_requires_rx_and_traverse_requires_x() {
    let (mut core, _) = test_core_posix();
    let root = core.register_process(1, 1, 0, 0);
    let bob = core.register_process(1001, 1, 1001, 1001);

    core.mkdir(&root, "/d".as_ref(), 0o700).unwrap();
    core.mkdir(&root, "/d/sub".as_ref(), 0o700).unwrap();
    let h = core.create(&root, "/d/sub/f.txt".as_ref(), &rw_create()).unwrap();
    core.close(&root, h).unwrap();

    // Bob cannot list /d (no r), traversal also fails (no x)
    assert!(core.readdir_plus(&bob, "/d".as_ref()).is_err());
    // Bob cannot traverse into /d/sub
    assert!(core.open(&bob, "/d/sub/f.txt".as_ref(), &ro()).is_err());

    // Grant execute only on /d, still no read for listing
    core.set_mode(&root, "/d".as_ref(), 0o711).unwrap();
    assert!(core.readdir_plus(&bob, "/d".as_ref()).is_err());
    // With x on /d but no x on /d/sub, still cannot traverse to file
    assert!(core.open(&bob, "/d/sub/f.txt".as_ref(), &ro()).is_err());

    // Grant x on /d/sub, traversal now allowed but listing without r still fails
    core.set_mode(&root, "/d/sub".as_ref(), 0o711).unwrap();
    assert!(core.open(&bob, "/d/sub/f.txt".as_ref(), &ro()).is_ok());
    assert!(core.readdir_plus(&bob, "/d/sub".as_ref()).is_err());
}
#[test]
fn test_symlink_relative_path() {
    let mut core = test_core();
    let pid = core.register_process(1000, 1000, 0, 0);

    // Create a directory structure
    core.mkdir(&pid, "/dir1".as_ref(), 0o755).unwrap();
    core.mkdir(&pid, "/dir1/subdir".as_ref(), 0o755).unwrap();
    core.create(&pid, "/dir1/subdir/target.txt".as_ref(), &rw_create()).unwrap();

    // Create a symlink with relative path
    core.symlink(&pid, "../target.txt", "/dir1/subdir/link.txt".as_ref()).unwrap();

    // Verify the symlink
    let target = core.readlink(&pid, "/dir1/subdir/link.txt".as_ref()).unwrap();
    assert_eq!(target, "../target.txt");
}

#[test]
fn test_symlink_errors() {
    let mut core = test_core();
    let pid = core.register_process(1000, 1000, 0, 0);

    // Try to create symlink with existing name
    core.create(&pid, "/existing".as_ref(), &rw_create()).unwrap();
    assert!(core.symlink(&pid, "target", "/existing".as_ref()).is_err());

    // Try to readlink on non-existent path
    assert!(core.readlink(&pid, "/nonexistent".as_ref()).is_err());

    // Try to readlink on regular file
    core.create(&pid, "/regular.txt".as_ref(), &rw_create()).unwrap();
    assert!(core.readlink(&pid, "/regular.txt".as_ref()).is_err());

    // Try to readlink on directory
    core.mkdir(&pid, "/testdir".as_ref(), 0o755).unwrap();
    assert!(core.readlink(&pid, "/testdir".as_ref()).is_err());

    // Try to create symlink in non-existent directory
    assert!(core.symlink(&pid, "target", "/nonexistent/link".as_ref()).is_err());

    // Try to create symlink in a file (not directory)
    assert!(core.symlink(&pid, "target", "/regular.txt/link".as_ref()).is_err());
}

#[test]
fn test_symlink_readdir_plus() {
    let mut core = test_core();
    let pid = core.register_process(1000, 1000, 0, 0);

    // Create a target file
    core.create(&pid, "/target".as_ref(), &rw_create()).unwrap();

    // Create a symlink
    core.symlink(&pid, "target", "/symlink".as_ref()).unwrap();

    // Test readdir_plus
    let entries = core.readdir_plus(&pid, "/".as_ref()).unwrap();

    // Find the symlink entry
    let symlink_entry = entries.iter().find(|(e, _)| e.name == "symlink").unwrap();

    assert!(symlink_entry.0.is_symlink);
    assert_eq!(symlink_entry.0.len, 6); // length of "target"
    assert!(symlink_entry.1.is_symlink);
    assert_eq!(symlink_entry.1.len, 6);
}

#[test]
fn test_symlink_cannot_read_write_like_file() {
    let mut core = test_core();
    let pid = core.register_process(1000, 1000, 0, 0);

    // Create a symlink
    core.symlink(&pid, "target", "/symlink".as_ref()).unwrap();

    // Try to open symlink for reading/writing (should work at filesystem level)
    let h = core.open(&pid, "/symlink".as_ref(), &ro()).unwrap();
    // But trying to read from it should fail at the VFS level since it's not a file
    let mut buf = [0u8; 10];
    assert!(core.read(&pid, h, 0, &mut buf).is_err());
    core.close(&pid, h).unwrap();

    // Writing to symlink should also fail
    let h2 = core.open(&pid, "/symlink".as_ref(), &rw()).unwrap();
    assert!(core.write(&pid, h2, 0, b"data").is_err());
    core.close(&pid, h2).unwrap();
}

#[test]
fn test_symlink_in_directory_operations() {
    let mut core = test_core();
    let pid = core.register_process(1000, 1000, 0, 0);

    // Create a directory
    core.mkdir(&pid, "/testdir".as_ref(), 0o755).unwrap();

    // Create a symlink inside the directory
    core.symlink(&pid, "outside", "/testdir/inside_link".as_ref()).unwrap();

    // List directory contents
    let entries = core.readdir_plus(&pid, "/testdir".as_ref()).unwrap();
    assert_eq!(entries.len(), 1);
    assert_eq!(entries[0].0.name, "inside_link");
    assert!(entries[0].0.is_symlink);

    // Remove directory with symlink inside should fail
    assert!(core.rmdir(&pid, "/testdir".as_ref()).is_err());

    // Remove the symlink first, then remove directory
    core.unlink(&pid, "/testdir/inside_link".as_ref()).unwrap();
    core.rmdir(&pid, "/testdir".as_ref()).unwrap();
}

#[test]
fn test_symlink_empty_target() {
    let mut core = test_core();
    let pid = core.register_process(1000, 1000, 0, 0);

    // Create symlink with empty target
    core.symlink(&pid, "", "/empty_link".as_ref()).unwrap();

    let target = core.readlink(&pid, "/empty_link".as_ref()).unwrap();
    assert_eq!(target, "");

    let attrs = core.getattr(&pid, "/empty_link".as_ref()).unwrap();
    assert!(attrs.is_symlink);
    assert_eq!(attrs.len, 0);
}

#[test]
fn test_symlink_long_target() {
    let mut core = test_core();
    let pid = core.register_process(1000, 1000, 0, 0);

    // Create symlink with long target path
    let long_target = "a".repeat(1000);
    core.symlink(&pid, &long_target, "/long_link".as_ref()).unwrap();

    let target = core.readlink(&pid, "/long_link".as_ref()).unwrap();
    assert_eq!(target, long_target);

    let attrs = core.getattr(&pid, "/long_link".as_ref()).unwrap();
    assert!(attrs.is_symlink);
    assert_eq!(attrs.len, 1000);
}

#[test]
fn test_multiple_symlinks_to_same_target() {
    let mut core = test_core();
    let pid = core.register_process(1000, 1000, 0, 0);

    // Create a target
    core.create(&pid, "/target".as_ref(), &rw_create()).unwrap();

    // Create multiple symlinks to the same target
    core.symlink(&pid, "target", "/link1".as_ref()).unwrap();
    core.symlink(&pid, "target", "/link2".as_ref()).unwrap();
    core.symlink(&pid, "target", "/link3".as_ref()).unwrap();

    // Verify all symlinks work
    for i in 1..=3 {
        let link_name = format!("/link{}", i);
        let target = core.readlink(&pid, link_name.as_ref()).unwrap();
        assert_eq!(target, "target");

        let attrs = core.getattr(&pid, link_name.as_ref()).unwrap();
        assert!(attrs.is_symlink);
    }

    // Verify directory listing shows all symlinks
    let entries = core.readdir_plus(&pid, "/".as_ref()).unwrap();
    let symlink_count = entries.iter().filter(|(e, _)| e.is_symlink).count();
    assert_eq!(symlink_count, 3);
}

#[test]
fn test_comprehensive_file_permissions() {
    let (mut core, _) = test_core_posix();

    // Register multiple users with different identities
    let root_pid = core.register_process(1, 1, 0, 0); // root: uid=0, gid=0
    let alice_pid = core.register_process(1000, 1, 1000, 1000); // alice: uid=1000, gid=1000
    let bob_pid = core.register_process(1001, 1, 1001, 1000); // bob: uid=1001, gid=1000 (in alice's group)
    let charlie_pid = core.register_process(1002, 1, 1002, 1002); // charlie: uid=1002, gid=1002 (no group access)

    // Create directory structure
    core.mkdir(&root_pid, "/shared".as_ref(), 0o755).unwrap();
    // Allow group members (gid=1000) to create within /shared (require w+x for directory modification)
    core.set_owner(&root_pid, "/shared".as_ref(), 0, 1000).unwrap();
    core.set_mode(&root_pid, "/shared".as_ref(), 0o775).unwrap();
    core.mkdir(&root_pid, "/private".as_ref(), 0o700).unwrap();

    // Create files with different permissions
    let h1 = core.create(&root_pid, "/shared/public.txt".as_ref(), &rw_create()).unwrap();
    core.close(&root_pid, h1).unwrap();
    core.set_mode(&root_pid, "/shared/public.txt".as_ref(), 0o644).unwrap(); // rw-r--r--

    let h2 = core.create(&alice_pid, "/shared/group.txt".as_ref(), &rw_create()).unwrap();
    core.close(&alice_pid, h2).unwrap();
    // Ensure group ownership matches bob's gid so group class applies
    core.set_owner(&root_pid, "/shared/group.txt".as_ref(), 1000, 1000).unwrap();
    core.set_mode(&alice_pid, "/shared/group.txt".as_ref(), 0o664).unwrap(); // rw-rw-r--

    let h3 = core.create(&root_pid, "/private/secret.txt".as_ref(), &rw_create()).unwrap();
    core.close(&root_pid, h3).unwrap();
    core.set_mode(&root_pid, "/private/secret.txt".as_ref(), 0o600).unwrap(); // rw-------

    // Test 1: Root can access files it owns; does not bypass by default
    assert!(core.open(&root_pid, "/shared/public.txt".as_ref(), &rw()).is_ok());
    assert!(core.open(&root_pid, "/shared/group.txt".as_ref(), &ro()).is_ok());
    assert!(core.open(&root_pid, "/shared/group.txt".as_ref(), &rw()).is_err());
    assert!(core.open(&root_pid, "/private/secret.txt".as_ref(), &rw()).is_ok());

    // Test 2: Alice (non-owner) can read the public file (rw-r--r--)
    assert!(core.open(&alice_pid, "/shared/public.txt".as_ref(), &ro()).is_ok());

    // Test 3: Bob (in group) can access group file but not write to public file
    assert!(core.open(&bob_pid, "/shared/group.txt".as_ref(), &rw()).is_ok());
    assert!(core.open(&bob_pid, "/shared/public.txt".as_ref(), &rw()).is_err()); // no write permission

    // Test 4: Charlie (other) can only read public file
    assert!(core.open(&charlie_pid, "/shared/public.txt".as_ref(), &ro()).is_ok());
    assert!(core.open(&charlie_pid, "/shared/public.txt".as_ref(), &rw()).is_err());
    assert!(core.open(&charlie_pid, "/shared/group.txt".as_ref(), &ro()).is_ok());
    assert!(core.open(&charlie_pid, "/shared/group.txt".as_ref(), &rw()).is_err());

    // Test 5: Only root (owner) can access private files; others denied
    assert!(core.open(&alice_pid, "/private/secret.txt".as_ref(), &ro()).is_err());
    assert!(core.open(&bob_pid, "/private/secret.txt".as_ref(), &ro()).is_err());
    assert!(core.open(&charlie_pid, "/private/secret.txt".as_ref(), &ro()).is_err());
}

#[test]
fn test_ownership_changes_and_permissions() {
    let (mut core, _) = test_core_posix();

    // Register users
    let root_pid = core.register_process(1, 1, 0, 0);
    let alice_pid = core.register_process(1000, 1, 1000, 1000);
    let bob_pid = core.register_process(1001, 1, 1001, 1001);

    // Create directory and file as root
    core.mkdir(&root_pid, "/testdir".as_ref(), 0o755).unwrap();
    let h = core.create(&root_pid, "/testdir/file.txt".as_ref(), &rw_create()).unwrap();
    core.write(&root_pid, h, 0, b"owned by root").unwrap();
    core.close(&root_pid, h).unwrap();
    core.set_mode(&root_pid, "/testdir/file.txt".as_ref(), 0o600).unwrap(); // Initially only root can access

    // Initially, only root can access
    assert!(core.open(&root_pid, "/testdir/file.txt".as_ref(), &rw()).is_ok());
    assert!(core.open(&alice_pid, "/testdir/file.txt".as_ref(), &ro()).is_err());
    assert!(core.open(&bob_pid, "/testdir/file.txt".as_ref(), &ro()).is_err());

    // Change ownership to alice
    core.set_owner(&root_pid, "/testdir/file.txt".as_ref(), 1000, 1000).unwrap();

    // Now alice can access, root cannot unless policy bypass is enabled, bob cannot
    assert!(core.open(&root_pid, "/testdir/file.txt".as_ref(), &rw()).is_err());
    assert!(core.open(&alice_pid, "/testdir/file.txt".as_ref(), &rw()).is_ok());
    assert!(core.open(&bob_pid, "/testdir/file.txt".as_ref(), &ro()).is_err());

    // Change mode to allow group read
    core.set_mode(&alice_pid, "/testdir/file.txt".as_ref(), 0o640).unwrap();

    // Now alice and bob (if bob were in alice's group) could access, but bob has gid=1001 != 1000
    assert!(core.open(&alice_pid, "/testdir/file.txt".as_ref(), &rw()).is_ok());
    assert!(core.open(&bob_pid, "/testdir/file.txt".as_ref(), &ro()).is_err()); // bob not in group

    // Change group ownership
    // Changing group requires owner to belong to the target group or root
    core.set_owner(&root_pid, "/testdir/file.txt".as_ref(), 1000, 1001).unwrap(); // keep alice as owner, set bob's group

    // Now bob can read
    assert!(core.open(&bob_pid, "/testdir/file.txt".as_ref(), &ro()).is_ok());
    assert!(core.open(&bob_pid, "/testdir/file.txt".as_ref(), &rw()).is_err()); // but not write

    // Verify ownership actually changed
    let attrs = core.getattr(&alice_pid, "/testdir/file.txt".as_ref()).unwrap();
    assert_eq!(attrs.uid, 1000);
    assert_eq!(attrs.gid, 1001);
}

#[test]
fn test_directory_permissions_and_traversal() {
    let (mut core, _) = test_core_posix();

    // Register users
    let root_pid = core.register_process(1, 1, 0, 0);
    let alice_pid = core.register_process(1000, 1, 1000, 1000);
    let bob_pid = core.register_process(1001, 1, 1001, 1001);

    // Create directory structure
    core.mkdir(&root_pid, "/top".as_ref(), 0o755).unwrap();
    core.mkdir(&root_pid, "/top/middle".as_ref(), 0o700).unwrap(); // Only owner can access
    core.mkdir(&root_pid, "/top/middle/bottom".as_ref(), 0o755).unwrap();

    let h = core
        .create(
            &root_pid,
            "/top/middle/bottom/file.txt".as_ref(),
            &rw_create(),
        )
        .unwrap();
    core.close(&root_pid, h).unwrap();

    // Change ownership of middle directory to alice
    core.set_owner(&root_pid, "/top/middle".as_ref(), 1000, 1000).unwrap();

    // Root can list /top, but after chown of /top/middle to alice, root is denied by default policy
    assert!(core.readdir_plus(&root_pid, "/top".as_ref()).is_ok());
    assert!(core.readdir_plus(&root_pid, "/top/middle".as_ref()).is_err());
    assert!(core.open(&root_pid, "/top/middle/bottom/file.txt".as_ref(), &ro()).is_err());

    // Alice can access her directory and below; listing /top may be allowed (755)
    assert!(core.readdir_plus(&alice_pid, "/top".as_ref()).is_ok()); // parent is 755
    assert!(core.readdir_plus(&alice_pid, "/top/middle".as_ref()).is_ok()); // she owns it
    assert!(core.readdir_plus(&alice_pid, "/top/middle/bottom".as_ref()).is_ok());
    assert!(core.open(&alice_pid, "/top/middle/bottom/file.txt".as_ref(), &ro()).is_ok());

    // Bob cannot access alice's directory
    assert!(core.readdir_plus(&bob_pid, "/top".as_ref()).is_ok()); // parent is 755
    assert!(core.readdir_plus(&bob_pid, "/top/middle".as_ref()).is_err()); // no permission
    assert!(core.open(&bob_pid, "/top/middle/bottom/file.txt".as_ref(), &ro()).is_err());
    // cannot traverse to it
}

#[test]
fn test_permission_denied_errors_with_details() {
    let (mut core, _) = test_core_posix();

    // Register users
    let root_pid = core.register_process(1, 1, 0, 0);
    let alice_pid = core.register_process(1000, 1, 1000, 1000);

    // Create restricted file
    let h = core.create(&root_pid, "/secret.txt".as_ref(), &rw_create()).unwrap();
    core.close(&root_pid, h).unwrap();
    core.set_mode(&root_pid, "/secret.txt".as_ref(), 0o600).unwrap(); // Only root can access

    // Alice tries to open - should get permission denied
    let result = core.open(&alice_pid, "/secret.txt".as_ref(), &ro());
    assert!(result.is_err());
    match result.unwrap_err() {
        FsError::AccessDenied => {} // Expected
        _ => panic!("Expected AccessDenied error"),
    }

    // Alice tries to read - should also get permission denied
    let h = core.create(&root_pid, "/readable.txt".as_ref(), &rw_create()).unwrap();
    core.close(&root_pid, h).unwrap();
    core.set_mode(&root_pid, "/readable.txt".as_ref(), 0o444).unwrap(); // Read-only for all

    let h = core.open(&alice_pid, "/readable.txt".as_ref(), &ro()).unwrap();
    let result = core.write(&alice_pid, h, 0, b"should fail");
    assert!(result.is_err());
    match result.unwrap_err() {
        FsError::AccessDenied => {} // Expected
        _ => panic!("Expected AccessDenied error"),
    }
    core.close(&alice_pid, h).unwrap();
}

#[test]
fn test_setuid_setgid_permission_interaction() {
    let mut core = test_core();

    // Register users
    let root_pid = core.register_process(1, 1, 0, 0);
    let alice_pid = core.register_process(1000, 1, 1000, 1000);
    let bob_pid = core.register_process(1001, 1, 1001, 1000); // bob is in alice's group

    // Create a file with setgid bit
    let h = core.create(&root_pid, "/setgid_file.txt".as_ref(), &rw_create()).unwrap();
    core.close(&root_pid, h).unwrap();
    core.set_mode(&root_pid, "/setgid_file.txt".as_ref(), 0o2770).unwrap(); // rwxrws---

    // Verify the mode was set
    let attrs = core.getattr(&root_pid, "/setgid_file.txt".as_ref()).unwrap();
    assert_eq!(
        attrs.mode_user,
        FileMode {
            read: true,
            write: true,
            execute: true
        }
    );
    assert_eq!(
        attrs.mode_group,
        FileMode {
            read: true,
            write: true,
            execute: true
        }
    );
    assert_eq!(
        attrs.mode_other,
        FileMode {
            read: false,
            write: false,
            execute: false
        }
    );

    // Both alice and bob should be able to access (alice owns, bob in group)
    assert!(core.open(&alice_pid, "/setgid_file.txt".as_ref(), &rw()).is_ok());
    assert!(core.open(&bob_pid, "/setgid_file.txt".as_ref(), &rw()).is_ok());
}

#[test]
fn test_cross_directory_permission_checks() {
    let (mut core, _) = test_core_posix();

    // Register users
    let root_pid = core.register_process(1, 1, 0, 0);
    let alice_pid = core.register_process(1000, 1, 1000, 1000);

    // Create directory structure with restricted access
    core.mkdir(&root_pid, "/restricted".as_ref(), 0o700).unwrap(); // Only root
    core.mkdir(&root_pid, "/restricted/subdir".as_ref(), 0o755).unwrap();

    let h = core
        .create(
            &root_pid,
            "/restricted/subdir/file.txt".as_ref(),
            &rw_create(),
        )
        .unwrap();
    core.close(&root_pid, h).unwrap();

    // Root can do everything
    assert!(core
        .rename(
            &root_pid,
            "/restricted/subdir/file.txt".as_ref(),
            "/restricted/subdir/renamed.txt".as_ref()
        )
        .is_ok());
    core.unlink(&PID::new(1), "/restricted/subdir/renamed.txt".as_ref()).unwrap();

    // Alice cannot list the restricted directory (no r), and cannot traverse it (no x)
    assert!(core.readdir_plus(&alice_pid, "/restricted".as_ref()).is_err());
    // Traversal to subdir fails due to missing x on /restricted
    assert!(core.open(&alice_pid, "/restricted/subdir/file.txt".as_ref(), &ro()).is_err());
    assert!(core.open(&alice_pid, "/restricted/subdir/file.txt".as_ref(), &ro()).is_err());
    assert!(core
        .rename(
            &alice_pid,
            "/restricted/subdir/file.txt".as_ref(),
            "/tmp.txt".as_ref()
        )
        .is_err());
}

#[test]
fn timed_operations_stamp_the_given_time() {
    let mut core = test_core();
    let pid = this_process();
    let h = core.create(&pid, "/t", &rw_create()).unwrap();
    assert_eq!(core.write_at(&pid, h, 0, b"abc", 1_234).unwrap(), 3);
    let a = core.getattr(&pid, "/t").unwrap();
    assert_eq!((a.times.mtime, a.times.ctime, a.len), (1_234, 1_234, 3));
    core.set_mode_at(&pid, "/t", 0o600, 2_000).unwrap();
    let b = core.getattr(&pid, "/t").unwrap();
    assert_eq!((b.times.ctime, b.times.mtime), (2_000, 1_234));
    core.set_owner_at(&pid, "/t", 7, 8, 3_000).unwrap();
    let c = core.getattr(&pid, "/t").unwrap();
    assert_eq!((c.uid, c.gid, c.times.ctime, c.times.mtime), (7, 8, 3_000, 1_234));
    assert_eq!(core.set_mode_at(&pid, "/missing", 0o600, 1), Err(FsError::NotFound));
    core.close(&pid, h).unwrap();
}

#[test]
fn unsubscribed_sink_and_untracked_core_get_nothing() {
    struct Counter(Mutex<Vec<String>>);
    impl EventSink for Counter {
        fn on_event(&self, evt: &EventKind) {
            self.0.lock().unwrap().push(format!("{:?}", evt));
        }
    }
    let mut core = test_core();
    let pid = this_process();
    let a = Arc::new(Counter(Mutex::new(vec![])));
    let b = Arc::new(Counter(Mutex::new(vec![])));
    let sa = core.subscribe_events(a.clone()).unwrap();
    let _sb = core.subscribe_events(b.clone()).unwrap();
    core.mkdir(&pid, "/d1", 0o755).unwrap();
    core.unsubscribe_events(sa).unwrap();
    core.mkdir(&pid, "/d2", 0o755).unwrap();
    assert_eq!(a.0.lock().unwrap().len(), 1);
    assert_eq!(b.0.lock().unwrap().len(), 2);
    assert_eq!(core.unsubscribe_events(sa), Err(FsError::NotFound));
    // A failed operation reports nothing.
    assert!(core.mkdir(&pid, "/d2", 0o755).is_err());
    assert_eq!(b.0.lock().unwrap().len(), 2);
}
