//! Concrete instances of the properties the library proves, edge cases and
//! error variants.

use std::sync::{Arc, Mutex};

use agentfs_core::mux::MuxError;
use agentfs_core::proto::{validate_request, FsDirEntry, FsRequest, FsResponse, Request, ValidationError};
use agentfs_core::push::parse_push_to_remote_flag;
use agentfs_core::storage::{InMemoryBackend, StorageBackend};
use agentfs_core::text::{is_whitespace, percent_encode_name};
use agentfs_core::{
    BranchId, CachePolicy, CaseSensitivity, EventKind, EventSink, FsConfig, FsCore, FsError, FsLimits, LockKind,
    LockRange, MemoryPolicy, OpenOptions, SecurityPolicy, ShareMode, PID,
};

fn config(enforce: bool) -> FsConfig {
    FsConfig {
        case_sensitivity: CaseSensitivity::Sensitive,
        memory: MemoryPolicy { max_bytes_in_memory: None, spill_directory: None },
        limits: FsLimits { max_open_handles: 100, max_branches: 10, max_snapshots: 10 },
        cache: CachePolicy {
            attr_ttl_ms: 0,
            entry_ttl_ms: 0,
            negative_ttl_ms: 0,
            enable_readdir_plus: true,
            auto_cache: false,
            writeback_cache: false,
        },
        enable_xattrs: true,
        enable_ads: true,
        track_events: true,
        security: SecurityPolicy {
            enforce_posix_permissions: enforce,
            default_uid: 0,
            default_gid: 0,
            enable_windows_acl_compat: false,
            root_bypass_permissions: false,
        },
    }
}

fn rw() -> OpenOptions {
    OpenOptions {
        read: true,
        write: true,
        create: true,
        truncate: false,
        append: false,
        share: vec![ShareMode::Read, ShareMode::Write],
        stream: None,
    }
}

fn read_all(core: &FsCore, pid: &PID, h: agentfs_core::HandleId, len: usize) -> Vec<u8> {
    let mut buf = vec![0u8; len];
    let n = core.read(pid, h, 0, &mut buf).unwrap();
    buf.truncate(n);
    buf
}

#[test]
fn read_gives_back_write_at_offset_and_zero_fills_gap() {
    let mut core = FsCore::new(config(false)).unwrap();
    let pid = core.register_process(7, 1, 0, 0);
    let h = core.create(&pid, "/f", &rw()).unwrap();
    core.write(&pid, h, 0, b"hello").unwrap();
    core.write(&pid, h, 3, b"XY").unwrap();
    assert_eq!(read_all(&core, &pid, h, 16), b"helXY".to_vec());
    core.write(&pid, h, 7, b"Z").unwrap();
    assert_eq!(read_all(&core, &pid, h, 16), b"helXY\0\0Z".to_vec());
    assert_eq!(core.getattr(&pid, "/f").unwrap().len, 8);
}

#[test]
fn storage_write_then_read_roundtrip() {
    let mut s = InMemoryBackend::new();
    let id = s.allocate(b"abc").unwrap();
    assert_eq!(s.write(id, 5, b"de").unwrap(), 2);
    let mut buf = [9u8; 10];
    let n = s.read(id, 0, &mut buf).unwrap();
    assert_eq!(n, 7);
    assert_eq!(&buf[..7], b"abc\0\0de");
    assert_eq!(buf[7], 9);
    let mut small = [0u8; 2];
    assert_eq!(s.read(id, 5, &mut small).unwrap(), 2);
    assert_eq!(&small, b"de");
}

#[test]
fn storage_reports_unknown_ids() {
    let mut s = InMemoryBackend::new();
    let mut buf = [0u8; 4];
    assert_eq!(s.read(agentfs_core::ContentId::new(3), 0, &mut buf), Err(FsError::NotFound));
    assert_eq!(s.write(agentfs_core::ContentId::new(3), 0, b"x"), Err(FsError::NotFound));
    assert_eq!(s.clone_cow(agentfs_core::ContentId::new(3)), Err(FsError::NotFound));
    assert_eq!(s.seal(agentfs_core::ContentId::new(3)), Err(FsError::NotFound));
    let id = s.allocate(b"").unwrap();
    assert_eq!(id.0, 1);
    assert_eq!(s.allocate(b"").unwrap().0, 2);
    s.truncate(id, 3).unwrap();
    assert_eq!(s.read(id, 0, &mut buf).unwrap(), 3);
    assert_eq!(&buf[..3], &[0u8, 0, 0]);
}

#[test]
fn copy_is_unaffected_by_writes_to_the_original() {
    let mut core = FsCore::new(config(false)).unwrap();
    let pid = core.register_process(7, 1, 0, 0);
    let other = core.register_process(8, 1, 0, 0);
    let h = core.create(&pid, "/f", &rw()).unwrap();
    core.write(&pid, h, 0, b"one").unwrap();
    let branch = core.branch_create_from_current(&pid, Some("copy")).unwrap();
    // Write to the original (default branch) after copying.
    core.write(&pid, h, 0, b"two").unwrap();
    core.close(&pid, h).unwrap();
    core.bind_process_to_branch_with_pid(branch, other.0).unwrap();
    let h2 = core.open(&other, "/f", &rw()).unwrap();
    assert_eq!(read_all(&core, &other, h2, 8), b"one".to_vec());
    // And writing the copy leaves the original alone.
    core.write(&other, h2, 0, b"333").unwrap();
    core.close(&other, h2).unwrap();
    let h3 = core.open(&pid, "/f", &rw()).unwrap();
    assert_eq!(read_all(&core, &pid, h3, 8), b"two".to_vec());
}

#[test]
fn new_branch_has_a_fresh_root_and_id() {
    let mut core = FsCore::new(config(false)).unwrap();
    let pid = core.register_process(7, 1, 0, 0);
    let snap = core.snapshot_create(&pid, None).unwrap();
    let b = core.branch_create_from_snapshot(snap, None).unwrap();
    assert!(b != BranchId::default_branch());
    let snapshot = core.snapshots.iter().find(|s| s.id == snap).unwrap();
    let branch = core.branches.iter().find(|x| x.id == b).unwrap();
    assert_ne!(snapshot.root_id, branch.root_id);
    let b2 = core.branch_create_from_snapshot(snap, None).unwrap();
    assert!(b2 != b);
    let s2 = core.snapshot_create(&pid, Some("again")).unwrap();
    assert!(s2 != snap);
}

#[test]
fn binding_selects_the_tree_and_unbinding_restores_default() {
    let mut core = FsCore::new(config(false)).unwrap();
    let pid = core.register_process(7, 1, 0, 0);
    let b = core.branch_create_from_current(&pid, None).unwrap();
    core.bind_process_to_branch_with_pid(b, pid.0).unwrap();
    core.mkdir(&pid, "/only_in_branch", 0o755).unwrap();
    assert!(core.getattr(&pid, "/only_in_branch").unwrap().is_dir);
    core.unbind_process_with_pid(pid.0).unwrap();
    assert_eq!(core.getattr(&pid, "/only_in_branch").unwrap_err(), FsError::NotFound);
    let unknown = BranchId::new([5u8; 16]);
    assert_eq!(core.bind_process_to_branch_with_pid(unknown, pid.0), Err(FsError::NotFound));
}

#[test]
fn unlock_undoes_lock_and_locks_conflict_across_handles() {
    let mut core = FsCore::new(config(false)).unwrap();
    let pid = core.register_process(7, 1, 0, 0);
    let h1 = core.create(&pid, "/l", &rw()).unwrap();
    let h2 = core.open(&pid, "/l", &rw()).unwrap();
    let ex = LockRange { offset: 0, len: 10, kind: LockKind::Exclusive };
    let sh = LockRange { offset: 9, len: 1, kind: LockKind::Shared };
    let apart = LockRange { offset: 10, len: 5, kind: LockKind::Exclusive };
    core.lock(h1, ex).unwrap();
    assert_eq!(core.lock(h2, sh), Err(FsError::Busy));
    core.lock(h2, apart).unwrap();
    core.unlock(h1, ex).unwrap();
    core.lock(h2, sh).unwrap();
    // Closing a handle releases its locks.
    core.close(&pid, h2).unwrap();
    core.lock(h1, ex).unwrap();
    assert_eq!(core.lock(agentfs_core::HandleId::new(999), ex), Err(FsError::InvalidArgument));
}

#[test]
fn share_modes_refuse_conflicting_opens() {
    let mut core = FsCore::new(config(false)).unwrap();
    let pid = core.register_process(7, 1, 0, 0);
    let exclusive = OpenOptions { share: vec![], ..rw() };
    let h = core.create(&pid, "/s", &exclusive).unwrap();
    assert_eq!(core.open(&pid, "/s", &rw()).unwrap_err(), FsError::AccessDenied);
    core.close(&pid, h).unwrap();
    assert!(core.open(&pid, "/s", &rw()).is_ok());
}

#[test]
fn listing_is_sorted_by_code_point() {
    let mut core = FsCore::new(config(false)).unwrap();
    let pid = core.register_process(7, 1, 0, 0);
    for name in ["/b", "/a", "/ä", "/B", "/ab"] {
        core.mkdir(&pid, name, 0o755).unwrap();
    }
    let names: Vec<String> = core.readdir_plus(&pid, "/").unwrap().into_iter().map(|(e, _)| e.name).collect();
    assert_eq!(names, vec!["B", "a", "ab", "b", "ä"]);
}

#[test]
fn raw_names_round_trip_through_percent_encoding() {
    assert_eq!(percent_encode_name(&[0x66, 0x6F, 0x80, 0x2F, 0x2D]), "fo%80%2F-");
    let mut core = FsCore::new(config(false)).unwrap();
    let pid = core.register_process(7, 1, 0, 0);
    core.mkdir(&pid, "/raw", 0o755).unwrap();
    let (parent, _) = core.resolve_path_public(&pid, "/raw").unwrap();
    let id = core.create_child_by_id(parent, &[0x66, 0x80], 1, 0o700).unwrap();
    assert_eq!(core.resolve_child_id_by_id_name(parent, &[0x66, 0x80]).unwrap(), id);
    assert!(core.getattr_child_by_id_name(parent, &[0x66, 0x80]).unwrap().is_dir);
    let listed = core.readdir_plus(&pid, "/raw").unwrap();
    assert_eq!(listed[0].0.name, "f%80");
    assert_eq!(core.create_child_by_id(parent, &[0x66, 0x80], 0, 0o600), Err(FsError::AlreadyExists));
    assert_eq!(core.create_child_by_id(parent, b"x", 2, 0o600), Err(FsError::InvalidArgument));
    assert_eq!(core.create_child_by_id(id + 100, b"x", 0, 0o600), Err(FsError::NotFound));
    let plain = core.create_child_by_id(parent, "ok".as_bytes(), 0, 0o600).unwrap();
    assert_eq!(core.create_child_by_id(plain, b"x", 0, 0o600), Err(FsError::NotADirectory));
    let raw = core.readdir_plus_raw(&pid, "/raw").unwrap();
    assert_eq!(raw.len(), 2);
    assert_eq!(raw[0].0, vec![0x66, 0x80]);
}

#[test]
fn error_variants_of_path_operations() {
    let mut core = FsCore::new(config(false)).unwrap();
    let pid = core.register_process(7, 1, 0, 0);
    core.mkdir(&pid, "/d", 0o755).unwrap();
    let h = core.create(&pid, "/d/f", &rw()).unwrap();
    assert_eq!(core.mkdir(&pid, "/d", 0o755), Err(FsError::AlreadyExists));
    assert_eq!(core.mkdir(&pid, "/missing/x", 0o755), Err(FsError::NotFound));
    assert_eq!(core.mkdir(&pid, "/nope/..", 0o755), Err(FsError::InvalidName));
    assert_eq!(core.mkdir(&pid, "/", 0o755), Err(FsError::AlreadyExists));
    assert_eq!(core.unlink(&pid, "/d"), Err(FsError::IsADirectory));
    assert_eq!(core.rmdir(&pid, "/d/f"), Err(FsError::NotADirectory));
    assert_eq!(core.rmdir(&pid, "/d"), Err(FsError::Busy));
    assert_eq!(core.rmdir(&pid, "/"), Err(FsError::InvalidArgument));
    assert_eq!(core.readdir_plus(&pid, "/d/f").unwrap_err(), FsError::NotADirectory);
    assert_eq!(core.readlink(&pid, "/d/f"), Err(FsError::InvalidArgument));
    assert_eq!(core.streams_list(&pid, "/d").unwrap_err(), FsError::IsADirectory);
    assert_eq!(core.rename(&pid, "/d/f", "/d"), Err(FsError::AlreadyExists));
    assert_eq!(core.rename(&pid, "/d/f", "/d/f/g"), Err(FsError::NotADirectory));
    let dir_handle = core.open(&pid, "/d", &rw()).unwrap();
    let mut buf = [0u8; 1];
    assert_eq!(core.read(&pid, dir_handle, 0, &mut buf), Err(FsError::IsADirectory));
    assert_eq!(core.write(&pid, dir_handle, 0, b"x"), Err(FsError::IsADirectory));
    let ro = OpenOptions { write: false, ..rw() };
    let r = core.open(&pid, "/d/f", &ro).unwrap();
    assert_eq!(core.write(&pid, r, 0, b"x"), Err(FsError::AccessDenied));
    let wo = OpenOptions { read: false, ..rw() };
    let w = core.open(&pid, "/d/f", &wo).unwrap();
    assert_eq!(core.read(&pid, w, 0, &mut buf), Err(FsError::AccessDenied));
    assert_eq!(core.close(&pid, agentfs_core::HandleId::new(12345)), Err(FsError::InvalidArgument));
    let named = OpenOptions { stream: Some("missing".to_string()), ..rw() };
    let ns = core.open(&pid, "/d/f", &named).unwrap();
    assert_eq!(core.read(&pid, ns, 0, &mut buf), Err(FsError::NotFound));
    assert_eq!(core.xattr_get(&pid, "/d/f", "user.none"), Err(FsError::NotFound));
    assert_eq!(core.unsubscribe_events(agentfs_core::SubscriptionId::new(77)), Err(FsError::NotFound));
    core.close(&pid, h).unwrap();
}

#[test]
fn rename_moves_between_directories_and_updates_listing() {
    let mut core = FsCore::new(config(false)).unwrap();
    let pid = core.register_process(7, 1, 0, 0);
    core.mkdir(&pid, "/a", 0o755).unwrap();
    core.mkdir(&pid, "/b", 0o755).unwrap();
    let h = core.create(&pid, "/a/x", &rw()).unwrap();
    core.write(&pid, h, 0, b"data").unwrap();
    core.close(&pid, h).unwrap();
    core.rename(&pid, "/a/x", "/b/y").unwrap();
    assert!(core.readdir_plus(&pid, "/a").unwrap().is_empty());
    assert_eq!(core.getattr(&pid, "/b/y").unwrap().len, 4);
    assert_eq!(core.getattr(&pid, "/a/x").unwrap_err(), FsError::NotFound);
}

#[test]
fn permissions_need_owner_for_chmod_and_root_for_chown() {
    let mut core = FsCore::new(config(true)).unwrap();
    let root = core.register_process(1, 1, 0, 0);
    let alice = core.register_process(2, 1, 1000, 1000);
    core.mkdir(&root, "/pub", 0o777).unwrap();
    let h = core.create(&alice, "/pub/f", &rw()).unwrap();
    core.close(&alice, h).unwrap();
    assert_eq!(core.getattr(&alice, "/pub/f").unwrap().uid, 1000);
    assert_eq!(core.set_mode(&root, "/pub/f", 0o600), Ok(()));
    let bob = core.register_process(3, 1, 1001, 1001);
    assert_eq!(core.set_mode(&bob, "/pub/f", 0o777), Err(FsError::AccessDenied));
    assert_eq!(core.set_owner(&alice, "/pub/f", 1001, 1000), Err(FsError::AccessDenied));
    assert_eq!(core.set_owner(&alice, "/pub/f", 1000, 1000), Ok(()));
    assert_eq!(core.open(&bob, "/pub/f", &rw()).unwrap_err(), FsError::AccessDenied);
    let attrs = core.getattr(&alice, "/pub/f").unwrap();
    assert!(attrs.mode_user.read && attrs.mode_user.write && !attrs.mode_user.execute);
    assert!(!attrs.mode_other.read);
}

#[test]
fn set_owner_clears_setuid_and_setgid_bits() {
    let mut core = FsCore::new(config(false)).unwrap();
    let pid = core.register_process(7, 1, 0, 0);
    let h = core.create(&pid, "/s", &rw()).unwrap();
    core.close(&pid, h).unwrap();
    core.set_mode(&pid, "/s", 0o6755).unwrap();
    core.set_owner(&pid, "/s", 5, 6).unwrap();
    let id = core.resolve_path_public(&pid, "/s").unwrap().0;
    let node = core.nodes[(id - 1) as usize].as_ref().unwrap();
    assert_eq!(node.mode, 0o755);
}

#[test]
fn timestamps_come_from_the_clock() {
    let mut core = FsCore::new(config(false)).unwrap();
    let pid = core.register_process(7, 1, 0, 0);
    core.mkdir(&pid, "/t", 0o755).unwrap();
    let a = core.getattr(&pid, "/t").unwrap();
    assert!(a.times.ctime > 1_600_000_000);
    assert_eq!(a.times.atime, a.times.birthtime);
}

#[test]
fn xattrs_replace_values_in_place() {
    let mut core = FsCore::new(config(false)).unwrap();
    let pid = core.register_process(7, 1, 0, 0);
    core.mkdir(&pid, "/x", 0o755).unwrap();
    core.xattr_set(&pid, "/x", "user.a", b"1").unwrap();
    core.xattr_set(&pid, "/x", "user.b", b"2").unwrap();
    core.xattr_set(&pid, "/x", "user.a", b"3").unwrap();
    assert_eq!(core.xattr_list(&pid, "/x").unwrap(), vec!["user.a".to_string(), "user.b".to_string()]);
    assert_eq!(core.xattr_get(&pid, "/x", "user.a").unwrap(), b"3".to_vec());
}

#[test]
fn snapshot_delete_waits_for_dependent_branches() {
    let mut core = FsCore::new(config(false)).unwrap();
    let pid = core.register_process(7, 1, 0, 0);
    let s1 = core.snapshot_create(&pid, Some("one")).unwrap();
    let s2 = core.snapshot_create(&pid, Some("two")).unwrap();
    core.branch_create_from_snapshot(s1, None).unwrap();
    assert_eq!(core.snapshot_delete(s1), Err(FsError::Busy));
    assert_eq!(core.snapshot_delete(s2), Ok(()));
    assert_eq!(core.snapshot_list().len(), 1);
    assert_eq!(core.branch_create_from_snapshot(s2, None), Err(FsError::NotFound));
}

#[derive(Default)]
struct Recorder {
    events: Mutex<Vec<EventKind>>,
}

impl EventSink for Recorder {
    fn on_event(&self, evt: &EventKind) {
        self.events.lock().unwrap().push(evt.clone());
    }
}

#[test]
fn every_subscriber_gets_each_event() {
    let mut core = FsCore::new(config(false)).unwrap();
    let pid = core.register_process(7, 1, 0, 0);
    let a = Arc::new(Recorder::default());
    let b = Arc::new(Recorder::default());
    let sa = core.subscribe_events(a.clone()).unwrap();
    let sb = core.subscribe_events(b.clone()).unwrap();
    assert_eq!(sb.0, sa.0 + 1);
    core.symlink(&pid, "t", "/l").unwrap();
    core.rmdir(&pid, "/l").unwrap_err();
    core.unlink(&pid, "/l").unwrap();
    assert_eq!(a.events.lock().unwrap().len(), 2);
    assert_eq!(b.events.lock().unwrap().len(), 2);
    core.unsubscribe_events(sa).unwrap();
    core.mkdir(&pid, "/m", 0o755).unwrap();
    assert_eq!(a.events.lock().unwrap().len(), 2);
    assert_eq!(b.events.lock().unwrap().len(), 3);
}

#[test]
fn error_and_message_texts() {
    assert_eq!(FsError::NotFound.message(), "not found");
    assert_eq!(FsError::Busy.message(), "resource busy");
    let err = validate_request(&Request::SnapshotList(b"2".to_vec())).unwrap_err();
    match &err {
        ValidationError::Schema(m) => assert_eq!(m, "version must be '1'"),
        _ => panic!("expected a schema error"),
    }
    assert_eq!(err.message(), "schema validation failed: version must be '1'");
    assert_eq!(ValidationError::SszDecode("x".to_string()).message(), "SSZ decoding failed: x");
    assert!(validate_request(&Request::SnapshotList(b"".to_vec())).is_err());
    assert!(validate_request(&Request::SnapshotList(b"11".to_vec())).is_err());
    assert_eq!(MuxError::Other("o".to_string()).message(), "other: o");
    assert!(MuxError::Io(std::io::Error::new(std::io::ErrorKind::Other, "boom")).message().starts_with("io error: "));
    assert_eq!(
        parse_push_to_remote_flag("MayBe").unwrap_err(),
        "Error: Invalid value for --push-to-remote: 'maybe'. Valid values are: 1, true, yes, y, 0, false, no, n"
    );
    assert_eq!(parse_push_to_remote_flag("Y"), Ok(true));
    assert_eq!(parse_push_to_remote_flag("N"), Ok(false));
}

#[test]
fn constructors_carry_their_arguments() {
    match Request::branch_bind("b".to_string(), None) {
        Request::BranchBind((v, req)) => {
            assert_eq!(v, b"1".to_vec());
            assert_eq!(req.branch, b"b".to_vec());
            assert_eq!(req.pid, None);
        },
        _ => panic!("wrong variant"),
    }
    assert_eq!(FsRequest::open("/p".to_string(), true, false), FsRequest::Open(agentfs_core::proto::FsOpenRequest {
        path: b"/p".to_vec(),
        read: true,
        write: false,
    }));
    assert_eq!(FsResponse::written(3), FsResponse::Written(agentfs_core::proto::FsWrittenResponse { len: 3 }));
    assert_eq!(FsDirEntry::new("é".to_string(), false, true, 2).name, vec![0xC3, 0xA9]);
}

#[test]
fn delete_on_close_keeps_data_readable_until_last_close() {
    let mut core = FsCore::new(config(false)).unwrap();
    let pid = core.register_process(7, 1, 0, 0);
    let h1 = core.create(&pid, "/gone", &rw()).unwrap();
    core.write(&pid, h1, 0, b"bye").unwrap();
    let h2 = core.open(&pid, "/gone", &rw()).unwrap();
    core.unlink(&pid, "/gone").unwrap();
    assert_eq!(core.getattr(&pid, "/gone").unwrap_err(), FsError::NotFound);
    core.close(&pid, h1).unwrap();
    assert_eq!(read_all(&core, &pid, h2, 8), b"bye".to_vec());
    let id = core.handles[0].node_id;
    core.close(&pid, h2).unwrap();
    assert!(core.nodes[(id - 1) as usize].is_none());
    assert_eq!(core.stats().open_handles, 0);
}

#[test]
fn whitespace_is_unicode_white_space() {
    for c in ['\t', '\n', '\u{0B}', '\u{0C}', '\r', ' ', '\u{85}', '\u{A0}', '\u{1680}', '\u{2000}', '\u{200A}',
        '\u{2028}', '\u{2029}', '\u{202F}', '\u{205F}', '\u{3000}'] {
        assert!(is_whitespace(c), "{:?}", c);
        assert_eq!(is_whitespace(c), c.is_whitespace());
    }
    for c in ['a', 'Z', '0', '\u{200B}', '\u{180E}', '\u{FEFF}', '_'] {
        assert!(!is_whitespace(c), "{:?}", c);
        assert_eq!(is_whitespace(c), c.is_whitespace());
    }
    for n in 0u32..0x3100 {
        if let Some(c) = char::from_u32(n) {
            assert_eq!(is_whitespace(c), c.is_whitespace(), "{:?}", c);
        }
    }
}

#[test]
fn utc_now_is_after_the_epoch() {
    let t = agentfs_core::utc::utc_now();
    assert!(t.secs > 1_600_000_000);
    assert!(t.nanos < 1_000_000_000);
}

#[test]
fn child_created_by_id_is_found_by_name_and_path() {
    let mut core = FsCore::new(config(false)).unwrap();
    let pid = core.register_process(7, 1, 0, 0);
    core.mkdir(&pid, "/d", 0o755).unwrap();
    let (parent, _) = core.resolve_path_public(&pid, "/d").unwrap();
    let id = core.create_child_by_id(parent, b"notes", 0, 0o644).unwrap();
    assert_eq!(core.resolve_child_id_by_id_name(parent, b"notes"), Ok(id));
    let by_name = core.getattr_child_by_id_name(parent, b"notes").unwrap();
    let by_path = core.getattr(&pid, "/d/notes").unwrap();
    assert_eq!(format!("{:?}", by_name), format!("{:?}", by_path));
    assert!(matches!(core.getattr_child_by_id_name(parent, b"absent"), Err(FsError::NotFound)));
    assert!(matches!(core.getattr(&pid, "/d/absent"), Err(FsError::NotFound)));
    let raw = core.readdir_plus_raw(&pid, "/d").unwrap();
    assert_eq!(raw[0].0, b"notes".to_vec());
}

#[test]
fn raw_and_utf8_listings_agree_entry_by_entry() {
    let mut core = FsCore::new(config(false)).unwrap();
    let pid = core.register_process(7, 1, 0, 0);
    core.mkdir(&pid, "/d", 0o755).unwrap();
    core.mkdir(&pid, "/d/zeta", 0o755).unwrap();
    let h = core.create(&pid, "/d/älpha", &rw()).unwrap();
    core.close(&pid, h).unwrap();
    let plain = core.readdir_plus(&pid, "/d").unwrap();
    let raw = core.readdir_plus_raw(&pid, "/d").unwrap();
    assert_eq!(plain.len(), raw.len());
    for (p, r) in plain.iter().zip(raw.iter()) {
        assert_eq!(p.0.name.as_bytes(), r.0.as_slice());
        assert_eq!(format!("{:?}", p.1), format!("{:?}", r.1));
    }
}

#[test]
fn stats_count_the_handles_not_yet_closed() {
    let mut core = FsCore::new(config(false)).unwrap();
    let pid = core.register_process(7, 1, 0, 0);
    let before = core.stats().open_handles;
    let h1 = core.create(&pid, "/a", &rw()).unwrap();
    let h2 = core.open(&pid, "/a", &rw()).unwrap();
    assert_eq!(core.stats().open_handles, before + 2);
    core.close(&pid, h1).unwrap();
    assert_eq!(core.stats().open_handles, before + 1);
    core.close(&pid, h2).unwrap();
    assert_eq!(core.stats().open_handles, before);
}

#[test]
fn open_by_id_reads_what_open_by_path_reads() {
    let mut core = FsCore::new(config(false)).unwrap();
    let pid = core.register_process(7, 1, 0, 0);
    let h = core.create(&pid, "/f", &rw()).unwrap();
    core.write(&pid, h, 0, b"same bytes").unwrap();
    core.close(&pid, h).unwrap();
    let (node, _) = core.resolve_path_public(&pid, "/f").unwrap();
    let by_path = core.open(&pid, "/f", &rw()).unwrap();
    let by_id = core.open_by_id(node, &rw()).unwrap();
    let mut a = [0u8; 10];
    let mut b = [0u8; 10];
    assert_eq!(core.read(&pid, by_path, 0, &mut a), Ok(10));
    assert_eq!(core.read(&pid, by_id, 0, &mut b), Ok(10));
    assert_eq!(a, b);
    assert_eq!(&a, b"same bytes");
}

#[test]
fn branch_list_holds_one_more_distinct_branch_per_creation() {
    let mut core = FsCore::new(config(false)).unwrap();
    let pid = core.register_process(7, 1, 0, 0);
    let snap = core.snapshot_create(&pid, Some("s")).unwrap();
    let b1 = core.branch_create_from_snapshot(snap, Some("one")).unwrap();
    let b2 = core.branch_create_from_snapshot(snap, None).unwrap();
    let list = core.branch_list();
    assert_eq!(list.len(), 3);
    assert_ne!(b1, b2);
    for i in 0..list.len() {
        for j in (i + 1)..list.len() {
            assert_ne!(list[i].id, list[j].id);
        }
    }
}
