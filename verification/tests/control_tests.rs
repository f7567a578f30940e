//! Answering control requests against a filesystem core.

use agentfs_core::control::{handle_control_request, map_error_code, parse_id};
use agentfs_core::proto::{BranchBindRequest, Request, Response, SnapshotCreateRequest};
use agentfs_core::{CachePolicy, CaseSensitivity, FsConfig, FsCore, FsError, FsLimits, MemoryPolicy, SecurityPolicy};

fn fresh_core() -> FsCore {
    FsCore::new(FsConfig {
        case_sensitivity: CaseSensitivity::Sensitive,
        memory: MemoryPolicy { max_bytes_in_memory: None, spill_directory: None },
        limits: FsLimits { max_open_handles: 64, max_branches: 8, max_snapshots: 8 },
        cache: CachePolicy {
            attr_ttl_ms: 1000,
            entry_ttl_ms: 1000,
            negative_ttl_ms: 1000,
            enable_readdir_plus: true,
            auto_cache: true,
            writeback_cache: false,
        },
        enable_xattrs: true,
        enable_ads: false,
        track_events: true,
        security: SecurityPolicy::default(),
    })
    .unwrap()
}

const FIRST_SNAPSHOT: &str = "01000000000000000000000000000001";

#[test]
fn control_snapshot_branch_and_bind() {
    let mut c = fresh_core();
    match handle_control_request(&mut c, 42, Request::snapshot_create(Some("s1".to_string()))).unwrap() {
        Response::SnapshotCreate(r) => {
            assert_eq!(r.snapshot.id, FIRST_SNAPSHOT.as_bytes().to_vec());
            assert_eq!(r.snapshot.name, Some(b"s1".to_vec()));
        },
        other => panic!("unexpected {:?}", other),
    }
    match handle_control_request(&mut c, 42, Request::snapshot_list()).unwrap() {
        Response::SnapshotList(l) => {
            assert_eq!(l.snapshots.len(), 1);
            assert_eq!(l.snapshots[0].id, FIRST_SNAPSHOT.as_bytes().to_vec());
        },
        other => panic!("unexpected {:?}", other),
    }
    let branch_id = match handle_control_request(
        &mut c,
        42,
        Request::branch_create(FIRST_SNAPSHOT.to_uppercase(), Some("b1".to_string())),
    )
    .unwrap()
    {
        Response::BranchCreate(r) => {
            assert_eq!(r.branch.parent, FIRST_SNAPSHOT.as_bytes().to_vec());
            assert_eq!(r.branch.name, Some(b"b1".to_vec()));
            assert_eq!(r.branch.id.len(), 32);
            String::from_utf8(r.branch.id).unwrap()
        },
        other => panic!("unexpected {:?}", other),
    };
    assert_eq!(c.branch_list().len(), 2);
    match handle_control_request(&mut c, 42, Request::branch_bind(branch_id.clone(), None)).unwrap() {
        Response::BranchBind(b) => {
            assert_eq!(b.branch, branch_id.as_bytes().to_vec());
            assert_eq!(b.pid, 42);
        },
        other => panic!("unexpected {:?}", other),
    }
    match handle_control_request(&mut c, 42, Request::branch_bind(branch_id.clone(), Some(7))).unwrap() {
        Response::BranchBind(b) => assert_eq!(b.pid, 7),
        other => panic!("unexpected {:?}", other),
    }
}

#[test]
fn control_refusals() {
    let mut c = fresh_core();
    assert_eq!(
        handle_control_request(&mut c, 1, Request::branch_create("zz".to_string(), None)).unwrap_err(),
        "Invalid snapshot ID"
    );
    assert_eq!(
        handle_control_request(&mut c, 1, Request::branch_bind("0102".to_string(), None)).unwrap_err(),
        "Invalid branch ID"
    );
    match handle_control_request(&mut c, 1, Request::branch_create(FIRST_SNAPSHOT.to_string(), None)).unwrap() {
        Response::Error(e) => {
            assert_eq!(e.error, b"NotFound".to_vec());
            assert_eq!(e.code, Some(2));
        },
        other => panic!("unexpected {:?}", other),
    }
    let bad = Request::SnapshotCreate((b"2".to_vec(), SnapshotCreateRequest { name: None }));
    match handle_control_request(&mut c, 1, bad).unwrap() {
        Response::Error(e) => {
            assert_eq!(e.error, b"schema validation failed: version must be '1'".to_vec());
            assert_eq!(e.code, Some(22));
        },
        other => panic!("unexpected {:?}", other),
    }
    let unknown = Request::BranchBind((b"1".to_vec(), BranchBindRequest { branch: FIRST_SNAPSHOT.as_bytes().to_vec(), pid: None }));
    match handle_control_request(&mut c, 1, unknown).unwrap() {
        Response::Error(e) => assert_eq!(e.code, Some(2)),
        other => panic!("unexpected {:?}", other),
    }
    assert_eq!(map_error_code(FsError::NoSpace), 28);
    assert_eq!(map_error_code(FsError::NotEmpty), 5);
    assert_eq!(parse_id(&FIRST_SNAPSHOT.as_bytes().to_vec()), Some([1, 0, 0, 0, 0, 0, 0, 0, 0, 0, 0, 0, 0, 0, 0, 1]));
}
