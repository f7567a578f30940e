//! The `agent fs status` report and the `tui` options.

use agentfs_core::cli_fs::{AgentFsCommands, FsCapabilities, StatusOptions};
use agentfs_core::cli_tui::{AuthChoice, TuiArgs};

fn caps(notes: Vec<&str>) -> FsCapabilities {
    FsCapabilities {
        provider: "Git".to_string(),
        score: 42,
        supports_cow_overlay: false,
        notes: notes.into_iter().map(|s| s.to_string()).collect(),
    }
}

fn opts(detect_only: bool, verbose: bool) -> StatusOptions {
    StatusOptions { path: None, json: false, verbose, detect_only }
}

#[test]
fn status_report_lines() {
    let lines = AgentFsCommands::status_lines(&opts(false, false), "/repo", &caps(vec!["a note"]));
    assert_eq!(
        lines,
        vec![
            "Filesystem status for: /repo".to_string(),
            "Filesystem type: unknown".to_string(),
            "Selected provider: Git".to_string(),
            "Capability score: 42".to_string(),
            "Supports CoW overlay: no".to_string(),
        ]
    );
    let lines = AgentFsCommands::status_lines(&opts(true, false), "/repo", &caps(vec!["n1", "n2"]));
    assert_eq!(lines[0], "Filesystem detection for: /repo");
    assert_eq!(lines[2], "Provider: Git");
    assert_eq!(&lines[5..], &["Detection notes:".to_string(), "  - n1".to_string(), "  - n2".to_string()]);
    let lines = AgentFsCommands::status_lines(&opts(false, true), "/r", &caps(vec![]));
    assert_eq!(lines.len(), 5);
    let mut c = caps(vec!["x"]);
    c.supports_cow_overlay = true;
    c.score = 0;
    let lines = AgentFsCommands::status_lines(&opts(false, true), "/r", &c);
    assert_eq!(lines[3], "Capability score: 0");
    assert_eq!(lines[4], "Supports CoW overlay: yes");
    assert_eq!(lines[6], "  - x");
}

#[test]
fn status_report_json() {
    let j = AgentFsCommands::status_json("/repo", caps(vec!["n"]));
    assert_eq!(j.path, "/repo");
    assert_eq!(j.filesystem_type, "unknown");
    assert_eq!(j.mount_point, None);
    assert_eq!(j.provider, "Git");
    assert_eq!(j.capabilities.score, 42);
    assert!(!j.capabilities.supports_cow_overlay);
    assert_eq!(j.detection_notes, vec!["n".to_string()]);
}

#[test]
fn tui_credentials() {
    let a = TuiArgs { remote_server: None, api_key: Some("k".to_string()), bearer_token: Some("t".to_string()) };
    assert_eq!(a.validate(), Err("Cannot specify both --api-key and --bearer-token".to_string()));
    let b = TuiArgs { remote_server: None, api_key: None, bearer_token: Some("t".to_string()) };
    assert_eq!(b.validate(), Err("--remote-server is required when using authentication".to_string()));
    let c = TuiArgs { remote_server: Some("https://x".to_string()), api_key: None, bearer_token: Some("t".to_string()) };
    assert_eq!(c.validate(), Ok(()));
    assert_eq!(c.auth_choice(), AuthChoice::Bearer("t".to_string()));
    let d = TuiArgs { remote_server: None, api_key: None, bearer_token: None };
    assert_eq!(d.validate(), Ok(()));
    assert_eq!(d.auth_choice(), AuthChoice::Anonymous);
    let e = TuiArgs { remote_server: Some("u".to_string()), api_key: Some("k".to_string()), bearer_token: None };
    assert_eq!(e.auth_choice(), AuthChoice::ApiKey("k".to_string()));
}
