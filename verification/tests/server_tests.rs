//! The request server: path normalisation, the answer to each kind of
//! request, error replies and the older text protocol.

use agentfs_core::legacy::{
    convert_legacy_to_ssz, convert_ssz_to_legacy, LegacyDirEntry, LegacyFsRequest, LegacyFsResponse,
};
use agentfs_core::proto::{FsDirEntry, FsRequest, FsResponse};
use agentfs_core::server::{normalize_agentfs_str, AgentFsServer};
use agentfs_core::FsError;

fn server() -> AgentFsServer {
    AgentFsServer::new(4242).expect("server starts")
}

fn is_error(resp: &FsResponse, text: &str, code: i32) -> bool {
    match resp {
        FsResponse::Error(e) => e.error == text.as_bytes().to_vec() && e.code == Some(code as u32),
        _ => false,
    }
}

#[test]
fn server_normalizes_agentfs_paths() {
    assert_eq!(normalize_agentfs_str("/agentfs/foo/bar"), "/foo/bar");
    assert_eq!(normalize_agentfs_str("/agentfs/"), "/");
    assert_eq!(normalize_agentfs_str("/agentfs"), "/");
    assert_eq!(normalize_agentfs_str("/agentfsx"), "/agentfsx");
    assert_eq!(normalize_agentfs_str("/plain"), "/plain");
    assert_eq!(normalize_agentfs_str("relative/x"), "/relative/x");
    assert_eq!(normalize_agentfs_str(""), "/");
    assert_eq!(normalize_agentfs_str("/agentfs/agentfs/x"), "/agentfs/x");
}

#[test]
fn server_normalizes_invalid_utf8_with_replacement() {
    let s = server();
    assert_eq!(s.normalize_agentfs_path(b"/agentfs/a\xffb"), "/a\u{FFFD}b");
    assert_eq!(s.normalize_agentfs_path(b"x"), "/x");
}

#[test]
fn server_starts_with_client_identity() {
    let s = server();
    assert_eq!(s.process_id.0, 1000);
    assert_eq!(s.next_local_handle, 1);
    assert!(s.handle_map.is_empty());
    assert_eq!(s.core.snapshot_list().len(), 1);
}

#[test]
fn server_file_round_trip() {
    let mut s = server();
    let r = s.handle_ssz_request(FsRequest::mkdir("/agentfs/dir".to_string()));
    assert_eq!(r, FsResponse::ok());
    let r = s.handle_ssz_request(FsRequest::create("/agentfs/dir/f.txt".to_string(), true, true));
    assert_eq!(r, FsResponse::handle(1));
    let r = s.handle_ssz_request(FsRequest::write(1, 0, b"hello".to_vec()));
    assert_eq!(r, FsResponse::written(5));
    let r = s.handle_ssz_request(FsRequest::read(1, 0, 100));
    assert_eq!(r, FsResponse::data(b"hello".to_vec()));
    let r = s.handle_ssz_request(FsRequest::read(1, 1, 3));
    assert_eq!(r, FsResponse::data(b"ell".to_vec()));
    let r = s.handle_ssz_request(FsRequest::read(1, 10, 3));
    assert_eq!(r, FsResponse::data(Vec::new()));
    let r = s.handle_ssz_request(FsRequest::getattr("/agentfs/dir/f.txt".to_string()));
    assert_eq!(r, FsResponse::attrs(5, false, false));
    let r = s.handle_ssz_request(FsRequest::getattr("/agentfs/dir".to_string()));
    assert_eq!(r, FsResponse::attrs(0, true, false));
    let r = s.handle_ssz_request(FsRequest::readdir("/agentfs/dir".to_string()));
    assert_eq!(r, FsResponse::entries(vec![FsDirEntry::new("f.txt".to_string(), false, false, 5)]));
    let r = s.handle_ssz_request(FsRequest::close(1));
    assert_eq!(r, FsResponse::ok());
    let r = s.handle_ssz_request(FsRequest::open("dir/f.txt".to_string(), true, false));
    assert_eq!(r, FsResponse::handle(2));
    let r = s.handle_ssz_request(FsRequest::read(2, 0, 5));
    assert_eq!(r, FsResponse::data(b"hello".to_vec()));
}

#[test]
fn server_unknown_handles_are_bad() {
    let mut s = server();
    let ebadf = s.codes.ebadf;
    assert_eq!(ebadf, libc::EBADF);
    let r = s.handle_ssz_request(FsRequest::close(7));
    assert!(is_error(&r, "Invalid handle", ebadf));
    let r = s.handle_ssz_request(FsRequest::read(7, 0, 1));
    assert!(is_error(&r, "Invalid handle", ebadf));
    let r = s.handle_ssz_request(FsRequest::write(7, 0, vec![1]));
    assert!(is_error(&r, "Invalid handle", ebadf));
}

#[test]
fn server_closed_handle_is_forgotten() {
    let mut s = server();
    let r = s.handle_ssz_request(FsRequest::create("/agentfs/a".to_string(), true, true));
    assert_eq!(r, FsResponse::handle(1));
    assert_eq!(s.handle_ssz_request(FsRequest::close(1)), FsResponse::ok());
    let r = s.handle_ssz_request(FsRequest::close(1));
    assert!(is_error(&r, "Invalid handle", libc::EBADF));
}

#[test]
fn server_handle_numbers_are_fresh() {
    let mut s = server();
    assert_eq!(s.handle_ssz_request(FsRequest::create("/a".to_string(), true, true)), FsResponse::handle(1));
    // Handles share nothing, so a second open of a file still open is refused.
    let r = s.handle_ssz_request(FsRequest::open("/a".to_string(), true, false));
    assert!(is_error(&r, "Access denied", libc::EACCES));
    assert_eq!(s.handle_ssz_request(FsRequest::close(1)), FsResponse::ok());
    assert_eq!(s.handle_ssz_request(FsRequest::open("/a".to_string(), true, false)), FsResponse::handle(2));
    assert_eq!(s.handle_ssz_request(FsRequest::close(2)), FsResponse::ok());
    assert_eq!(s.handle_ssz_request(FsRequest::open("/a".to_string(), true, false)), FsResponse::handle(3));
    assert_eq!(s.next_local_handle, 4);
}

#[test]
fn server_reports_core_errors_with_errno() {
    let mut s = server();
    let r = s.handle_ssz_request(FsRequest::open("/agentfs/missing".to_string(), true, false));
    assert!(is_error(&r, "Not found", libc::ENOENT));
    assert_eq!(s.next_local_handle, 1);
    let r = s.handle_ssz_request(FsRequest::mkdir("/agentfs/d".to_string()));
    assert_eq!(r, FsResponse::ok());
    let r = s.handle_ssz_request(FsRequest::mkdir("/agentfs/d".to_string()));
    assert!(is_error(&r, "Already exists", libc::EEXIST));
    let r = s.handle_ssz_request(FsRequest::unlink("/agentfs/d/none".to_string()));
    assert!(is_error(&r, "Not found", libc::ENOENT));
    let r = s.handle_ssz_request(FsRequest::readdir("/agentfs/nothing".to_string()));
    assert!(is_error(&r, "Not found", libc::ENOENT));
    let r = s.handle_ssz_request(FsRequest::create("/agentfs/d".to_string(), true, true));
    assert!(is_error(&r, "Already exists", libc::EEXIST));
}

#[test]
fn server_unlink_removes_entry() {
    let mut s = server();
    assert_eq!(s.handle_ssz_request(FsRequest::create("/agentfs/gone".to_string(), false, true)), FsResponse::handle(1));
    assert_eq!(s.handle_ssz_request(FsRequest::close(1)), FsResponse::ok());
    assert_eq!(s.handle_ssz_request(FsRequest::unlink("/agentfs/gone".to_string())), FsResponse::ok());
    let r = s.handle_ssz_request(FsRequest::getattr("/agentfs/gone".to_string()));
    assert!(is_error(&r, "Not found", libc::ENOENT));
    let r = s.handle_ssz_request(FsRequest::readdir("/agentfs".to_string()));
    assert_eq!(r, FsResponse::entries(vec![]));
}

#[test]
fn server_maps_every_error() {
    let s = server();
    let cases = [
        (FsError::NotFound, "Not found", libc::ENOENT),
        (FsError::AlreadyExists, "Already exists", libc::EEXIST),
        (FsError::AccessDenied, "Access denied", libc::EACCES),
        (FsError::PermissionDenied, "Permission denied", libc::EACCES),
        (FsError::InvalidArgument, "Invalid argument", libc::EINVAL),
        (FsError::InvalidName, "Invalid name", libc::EINVAL),
        (FsError::NotADirectory, "Not a directory", libc::ENOTDIR),
        (FsError::IsADirectory, "Is a directory", libc::EISDIR),
        (FsError::Busy, "Resource busy", libc::EBUSY),
        (FsError::NotEmpty, "Directory not empty", libc::ENOTEMPTY),
        (FsError::NoSpace, "No space left", libc::ENOSPC),
        (FsError::TooManyOpenFiles, "Too many open files", libc::EMFILE),
        (FsError::Unsupported, "Unsupported operation", libc::ENOTSUP),
    ];
    for (e, text, code) in cases {
        assert!(is_error(&s.map_ssz_error(e), text, code), "{:?}", e);
        assert!(is_error(&s.map_error(e), text, code), "{:?}", e);
    }
}

#[test]
fn legacy_requests_convert() {
    let r = convert_legacy_to_ssz(LegacyFsRequest::Open { path: "/x".to_string(), read: true, write: false, create: true });
    assert_eq!(r, FsRequest::open("/x".to_string(), true, false));
    let r = convert_legacy_to_ssz(LegacyFsRequest::Create { path: "/y".to_string(), read: false, write: true });
    assert_eq!(r, FsRequest::create("/y".to_string(), false, true));
    assert_eq!(convert_legacy_to_ssz(LegacyFsRequest::Close { handle: 3 }), FsRequest::close(3));
    let r = convert_legacy_to_ssz(LegacyFsRequest::Read { handle: 3, offset: 7, len: 9 });
    assert_eq!(r, FsRequest::read(3, 7, 9));
    let r = convert_legacy_to_ssz(LegacyFsRequest::Write { handle: 3, offset: 1, data: vec![4, 5] });
    assert_eq!(r, FsRequest::write(3, 1, vec![4, 5]));
    let r = convert_legacy_to_ssz(LegacyFsRequest::GetAttr { path: "/g".to_string() });
    assert_eq!(r, FsRequest::getattr("/g".to_string()));
    let r = convert_legacy_to_ssz(LegacyFsRequest::Mkdir { path: "/m".to_string() });
    assert_eq!(r, FsRequest::mkdir("/m".to_string()));
    let r = convert_legacy_to_ssz(LegacyFsRequest::Unlink { path: "/u".to_string() });
    assert_eq!(r, FsRequest::unlink("/u".to_string()));
    let r = convert_legacy_to_ssz(LegacyFsRequest::ReadDir { path: "/r".to_string() });
    assert_eq!(r, FsRequest::readdir("/r".to_string()));
}

#[test]
fn legacy_responses_convert() {
    assert!(matches!(convert_ssz_to_legacy(FsResponse::handle(9)), LegacyFsResponse::Handle { handle: 9 }));
    match convert_ssz_to_legacy(FsResponse::data(vec![1, 2])) {
        LegacyFsResponse::Data { data } => assert_eq!(data, vec![1, 2]),
        other => panic!("unexpected {:?}", other),
    }
    assert!(matches!(convert_ssz_to_legacy(FsResponse::written(4)), LegacyFsResponse::Written { len: 4 }));
    assert!(matches!(
        convert_ssz_to_legacy(FsResponse::attrs(8, true, false)),
        LegacyFsResponse::Attrs { len: 8, is_dir: true, is_symlink: false }
    ));
    assert!(matches!(convert_ssz_to_legacy(FsResponse::ok()), LegacyFsResponse::Success));
    let entries = vec![
        FsDirEntry::new("a".to_string(), true, false, 0),
        FsDirEntry { name: vec![b'b', 0xff], is_dir: false, is_symlink: true, len: 3 },
    ];
    match convert_ssz_to_legacy(FsResponse::entries(entries)) {
        LegacyFsResponse::Entries(v) => {
            assert_eq!(v.len(), 2);
            let LegacyDirEntry { name, is_dir, is_symlink, len } = &v[0];
            assert_eq!((name.as_str(), *is_dir, *is_symlink, *len), ("a", true, false, 0));
            assert_eq!(v[1].name, "b\u{FFFD}");
            assert!(v[1].is_symlink);
            assert_eq!(v[1].len, 3);
        },
        other => panic!("unexpected {:?}", other),
    }
    match convert_ssz_to_legacy(FsResponse::error("Busy".to_string(), Some(16))) {
        LegacyFsResponse::Error { error, code } => {
            assert_eq!(error, "Busy");
            assert_eq!(code, Some(16));
        },
        other => panic!("unexpected {:?}", other),
    }
    match convert_ssz_to_legacy(FsResponse::error("x".to_string(), None)) {
        LegacyFsResponse::Error { code, .. } => assert_eq!(code, None),
        other => panic!("unexpected {:?}", other),
    }
}
