//! The preloaded client's decisions and the socket framing.

use agentfs_core::interpose::{
    close_hook_finish, open_hook_finish, open_hook_request, open_mode_of, read_hook_finish, should_intercept,
    write_hook_finish, InterposeState, OpenFlagCodes, SyncAgentFsClient, FIRST_LOCAL_HANDLE,
};
use agentfs_core::proto::frames::{frame_length, frame_message};
use agentfs_core::proto::{FsRequest, FsResponse};

const LINUX_FLAGS: OpenFlagCodes = OpenFlagCodes { rdonly: 0, wronly: 1, rdwr: 2, creat: 0o100 };

#[test]
fn interpose_only_agentfs_paths() {
    assert!(should_intercept("/agentfs/x"));
    assert!(should_intercept("/agentfs/"));
    assert!(!should_intercept("/agentfs"));
    assert!(!should_intercept("/tmp/agentfs/x"));
    assert!(open_hook_request("/etc/passwd", 0, LINUX_FLAGS).is_none());
}

#[test]
fn interpose_open_flags() {
    // A read-only open has no bit set, so it is not taken as a read.
    assert_eq!(open_mode_of(0, LINUX_FLAGS), (false, false, false));
    assert_eq!(open_mode_of(1, LINUX_FLAGS), (false, true, false));
    assert_eq!(open_mode_of(2 | 0o100, LINUX_FLAGS), (true, true, true));
    match open_hook_request("/agentfs/f", 2, LINUX_FLAGS) {
        Some(FsRequest::Open(o)) => {
            assert_eq!(o.path, b"/agentfs/f".to_vec());
            assert!(o.read && o.write);
        },
        other => panic!("unexpected {:?}", other),
    }
}

#[test]
fn interpose_descriptor_table() {
    let mut state = InterposeState::new();
    assert_eq!(state.next_descriptor(), FIRST_LOCAL_HANDLE);
    assert_eq!(open_hook_finish(&mut state, FsResponse::handle(7)), Some(1000));
    assert_eq!(open_hook_finish(&mut state, FsResponse::handle(9)), Some(1001));
    assert_eq!(state.agentfs_handle(1000), Some(7));
    assert_eq!(state.agentfs_handle(1001), Some(9));
    assert_eq!(open_hook_finish(&mut state, FsResponse::error("nope".to_string(), Some(2))), None);
    assert_eq!(state.next_descriptor(), 1002);
    assert_eq!(close_hook_finish(&mut state, 1000, FsResponse::ok()), Some(0));
    assert_eq!(state.agentfs_handle(1000), None);
    assert_eq!(close_hook_finish(&mut state, 1001, FsResponse::error("busy".to_string(), None)), None);
    assert_eq!(state.agentfs_handle(1001), Some(9));
}

#[test]
fn interpose_replies() {
    assert_eq!(read_hook_finish(FsResponse::data(vec![1, 2, 3])), Some(vec![1, 2, 3]));
    assert_eq!(read_hook_finish(FsResponse::ok()), None);
    assert_eq!(write_hook_finish(5, FsResponse::ok()), Some(5));
    // The server answers writes with a count, which this client does not expect.
    assert_eq!(write_hook_finish(5, FsResponse::written(5)), None);
    assert_eq!(SyncAgentFsClient::open_reply(FsResponse::handle(3)), Ok(3));
    assert_eq!(
        SyncAgentFsClient::open_reply(FsResponse::error("No such file".to_string(), Some(2))),
        Err("No such file".to_string())
    );
    assert_eq!(SyncAgentFsClient::done_reply(FsResponse::data(vec![])), Err("Unexpected response type".to_string()));
    assert_eq!(SyncAgentFsClient::getattr_reply(FsResponse::attrs(1, false, false)), Ok(()));
    assert_eq!(SyncAgentFsClient::readdir_reply(FsResponse::ok()), Err("Unexpected response type".to_string()));
    assert_eq!(SyncAgentFsClient::for_server("/tmp/agentfs.sock").socket_path(), "/tmp/agentfs.sock.ssz");
    match SyncAgentFsClient::read_request(4, 100) {
        FsRequest::Read(r) => assert_eq!((r.handle, r.offset, r.len), (4, 0, 100)),
        other => panic!("unexpected {:?}", other),
    }
}

#[test]
fn frames_carry_big_endian_lengths() {
    let f = frame_message(b"hello");
    assert_eq!(f, vec![0, 0, 0, 5, b'h', b'e', b'l', b'l', b'o']);
    assert_eq!(frame_length([0, 0, 1, 2]), 258);
    assert_eq!(frame_length([1, 0, 0, 0]), 16_777_216);
    let big = vec![0u8; 300];
    let g = frame_message(&big);
    assert_eq!(frame_length([g[0], g[1], g[2], g[3]]), 300);
    assert_eq!(g.len(), 304);
}
