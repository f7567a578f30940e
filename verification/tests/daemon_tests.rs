//! Messages of the snapshot daemon and what its client makes of replies.

use agentfs_core::daemon::{DaemonClient, DaemonError, Request, Response, DEFAULT_SOCKET_PATH};

#[test]
fn test_client_creation() {
    let client = DaemonClient::new();
    assert_eq!(client.socket_path(), DEFAULT_SOCKET_PATH);

    let custom_path = "/tmp/custom/socket";
    let custom_client = DaemonClient::with_socket_path(custom_path);
    assert_eq!(custom_client.socket_path(), custom_path);
}

#[test]
fn test_request_construction() {
    let ping_req = Request::ping();
    assert!(matches!(ping_req, Request::Ping(_)));

    let snap_req = Request::snapshot_zfs("source".to_string(), "snapshot".to_string());
    assert!(matches!(snap_req, Request::SnapshotZfs(_)));

    let clone_req = Request::clone_zfs("snapshot".to_string(), "clone".to_string());
    assert!(matches!(clone_req, Request::CloneZfs(_)));

    let delete_req = Request::delete_zfs("target".to_string());
    assert!(matches!(delete_req, Request::DeleteZfs(_)));
}

#[test]
fn test_zfs_clone_request_creation() {
    let request = Request::clone_zfs("test_snapshot".to_string(), "test_clone".to_string());
    match request {
        Request::CloneZfs((snap, clone)) => {
            assert_eq!(String::from_utf8_lossy(&snap), "test_snapshot");
            assert_eq!(String::from_utf8_lossy(&clone), "test_clone");
        }
        _ => panic!("Expected CloneZfs variant"),
    }
}

#[test]
fn test_response_constructors() {
    let success_resp = Response::success();
    match success_resp {
        Response::Success(_) => {}
        _ => panic!("Expected Success response"),
    }

    let error_resp = Response::error("test error".to_string());
    match error_resp {
        Response::Error(msg) => {
            assert_eq!(String::from_utf8_lossy(&msg), "test error");
        }
        _ => panic!("Expected Error response"),
    }
}

#[test]
fn daemon_replies_interpreted() {
    assert_eq!(DaemonClient::ping_reply(Response::success()), Ok(()));
    assert_eq!(
        DaemonClient::ping_reply(Response::error("boom".to_string())),
        Err(DaemonError::DaemonError("boom".to_string()))
    );
    assert_eq!(
        DaemonClient::ping_reply(Response::success_with_path("/x".to_string())),
        Err(DaemonError::ProtocolError("Unexpected response to ping".to_string()))
    );
    assert_eq!(
        DaemonClient::clone_zfs_reply(Response::success_with_mountpoint("/mnt/c".to_string())),
        Ok(Some("/mnt/c".to_string()))
    );
    assert_eq!(DaemonClient::clone_zfs_reply(Response::success()), Ok(None));
    assert_eq!(
        DaemonClient::clone_zfs_reply(Response::success_with_path("/p".to_string())),
        Err(DaemonError::ProtocolError("Unexpected response to ZFS clone".to_string()))
    );
    assert_eq!(
        DaemonClient::clone_btrfs_reply(Response::success_with_path("/p".to_string())),
        Ok(Some("/p".to_string()))
    );
    assert_eq!(
        DaemonClient::clone_btrfs_reply(Response::success_with_mountpoint("/m".to_string())),
        Err(DaemonError::ProtocolError("Unexpected response to Btrfs clone".to_string()))
    );
    assert_eq!(
        DaemonClient::delete_btrfs_reply(Response::Error(vec![b'x', 0xff])),
        Err(DaemonError::DaemonError("x\u{FFFD}".to_string()))
    );
    assert_eq!(DaemonClient::snapshot_zfs_reply(Response::success()), Ok(()));
    assert_eq!(DaemonClient::delete_zfs_reply(Response::success()), Ok(()));
    assert_eq!(DaemonClient::snapshot_btrfs_reply(Response::success()), Ok(()));
    assert_eq!(
        DaemonError::ProtocolError("bad".to_string()).message(),
        "Protocol error: bad".to_string()
    );
    assert_eq!(DaemonClient::default().socket_path(), DEFAULT_SOCKET_PATH);
}

#[test]
fn daemon_request_lines_are_hex() {
    assert_eq!(DaemonClient::request_line(&[0x01, 0xab, 0x00]), "01ab00\n");
    assert_eq!(DaemonClient::request_line(&[]), "\n");
}

#[test]
fn daemon_reply_lines_decode() {
    assert_eq!(DaemonClient::reply_bytes("01ab00\n").unwrap(), vec![0x01, 0xab, 0x00]);
    assert_eq!(DaemonClient::reply_bytes("  0A\r\n").unwrap(), vec![0x0a]);
    assert_eq!(DaemonClient::reply_bytes("\n").unwrap(), Vec::<u8>::new());
    assert_eq!(
        DaemonClient::reply_bytes("abc\n"),
        Err(DaemonError::ProtocolError("Failed to decode hex response: Odd number of digits".to_string()))
    );
    assert_eq!(
        DaemonClient::reply_bytes("0z"),
        Err(DaemonError::ProtocolError("Failed to decode hex response: Invalid character 'z' at position 1".to_string()))
    );
    let line = DaemonClient::request_line(&[7, 200, 255]);
    assert_eq!(DaemonClient::reply_bytes(&line).unwrap(), vec![7, 200, 255]);
}
