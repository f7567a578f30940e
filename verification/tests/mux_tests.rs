//! Shared multiplexer types.

use agentfs_core::mux::{MuxError, SplitDirection};

#[test]
fn test_split_direction_debug() {
    assert_eq!(format!("{:?}", SplitDirection::Horizontal), "Horizontal");
    assert_eq!(format!("{:?}", SplitDirection::Vertical), "Vertical");
}

#[test]
fn test_mux_error_display() {
    let err = MuxError::NotAvailable("tmux");
    assert_eq!(err.message(), "multiplexer not available: tmux");

    let err = MuxError::NotFound;
    assert_eq!(err.message(), "not found");

    let err = MuxError::CommandFailed("command failed".to_string());
    assert_eq!(err.message(), "command failed: command failed");
}
