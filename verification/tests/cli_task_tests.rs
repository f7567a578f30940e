//! Options of `task create` and the decisions taken around its work.

use agentfs_core::cli_task::{check_task_content, session_record_for, task_record_for, TaskCommands, TaskCreateArgs};
use agentfs_core::push::parse_push_to_remote_flag;

fn args(branch: Option<&str>, prompt: Option<&str>, devshell: Option<&str>, push: Option<&str>, non_interactive: bool) -> TaskCreateArgs {
    TaskCreateArgs {
        branch: branch.map(|s| s.to_string()),
        prompt: prompt.map(|s| s.to_string()),
        prompt_file: None,
        devshell: devshell.map(|s| s.to_string()),
        push_to_remote: push.map(|s| s.to_string()),
        non_interactive,
        sandbox: "none".to_string(),
        allow_network: "no".to_string(),
        allow_containers: "no".to_string(),
        allow_kvm: "no".to_string(),
        seccomp: "no".to_string(),
        seccomp_debug: "no".to_string(),
        mount_rw: vec![],
        overlay: vec![],
    }
}

#[test]
fn test_task_create_args_builder() {
    let args = TaskCreateArgs {
        branch: Some("feature-branch".to_string()),
        prompt: Some("Implement feature X".to_string()),
        prompt_file: None,
        devshell: Some("dev".to_string()),
        push_to_remote: Some("yes".to_string()),
        non_interactive: true,
        sandbox: "none".to_string(),
        allow_network: "no".to_string(),
        allow_containers: "no".to_string(),
        allow_kvm: "no".to_string(),
        seccomp: "no".to_string(),
        seccomp_debug: "no".to_string(),
        mount_rw: vec![],
        overlay: vec![],
    };

    assert_eq!(args.branch, Some("feature-branch".to_string()));
    assert_eq!(args.prompt, Some("Implement feature X".to_string()));
    assert_eq!(args.devshell, Some("dev".to_string()));
    assert_eq!(args.push_to_remote, Some("yes".to_string()));
    assert!(args.non_interactive);
}

#[test]
fn test_cli_args_mutually_exclusive() {
    let args1 = TaskCreateArgs {
        branch: Some("test-branch".to_string()),
        prompt: Some("prompt".to_string()),
        prompt_file: Some("file.txt".into()),
        devshell: None,
        push_to_remote: None,
        non_interactive: true,
        sandbox: "none".to_string(),
        allow_network: "no".to_string(),
        allow_containers: "no".to_string(),
        allow_kvm: "no".to_string(),
        seccomp: "no".to_string(),
        seccomp_debug: "no".to_string(),
        mount_rw: vec![],
        overlay: vec![],
    };

    assert!(args1.prompt.is_some() && args1.prompt_file.is_some());
}

#[test]
fn test_task_validation_empty_content() {
    let _args = TaskCreateArgs {
        branch: Some("test-branch".to_string()),
        prompt: None,
        prompt_file: None,
        devshell: None,
        push_to_remote: None,
        non_interactive: true,
        sandbox: "none".to_string(),
        allow_network: "no".to_string(),
        allow_containers: "no".to_string(),
        allow_kvm: "no".to_string(),
        seccomp: "no".to_string(),
        seccomp_debug: "no".to_string(),
        mount_rw: vec![],
        overlay: vec![],
    };

    let empty_content = "";
    assert!(empty_content.trim().is_empty());
}

#[test]
fn test_task_validation_whitespace_only() {
    let _args = TaskCreateArgs {
        branch: Some("test-branch".to_string()),
        prompt: None,
        prompt_file: None,
        devshell: None,
        push_to_remote: None,
        non_interactive: true,
        sandbox: "none".to_string(),
        allow_network: "no".to_string(),
        allow_containers: "no".to_string(),
        allow_kvm: "no".to_string(),
        seccomp: "no".to_string(),
        seccomp_debug: "no".to_string(),
        mount_rw: vec![],
        overlay: vec![],
    };

    let whitespace_content = "   \n\t   ";
    assert!(whitespace_content.trim().is_empty());
}

#[test]
fn test_non_interactive_mode_requires_input() {
    let args = TaskCreateArgs {
        branch: Some("test-branch".to_string()),
        prompt: None,
        prompt_file: None,
        devshell: None,
        push_to_remote: None,
        non_interactive: true,
        sandbox: "none".to_string(),
        allow_network: "no".to_string(),
        allow_containers: "no".to_string(),
        allow_kvm: "no".to_string(),
        seccomp: "no".to_string(),
        seccomp_debug: "no".to_string(),
        mount_rw: vec![],
        overlay: vec![],
    };

    assert!(args.prompt.is_none());
    assert!(args.prompt_file.is_none());
    assert!(args.non_interactive);
}

#[test]
fn test_devshell_only_for_new_branches() {
    let args = TaskCreateArgs {
        branch: None,
        prompt: Some("test".to_string()),
        prompt_file: None,
        devshell: Some("custom".to_string()),
        push_to_remote: None,
        non_interactive: true,
        sandbox: "none".to_string(),
        allow_network: "no".to_string(),
        allow_containers: "no".to_string(),
        allow_kvm: "no".to_string(),
        seccomp: "no".to_string(),
        seccomp_debug: "no".to_string(),
        mount_rw: vec![],
        overlay: vec![],
    };

    assert!(args.branch.is_none());
    assert!(args.devshell.is_some());
}

#[test]
fn test_error_messages_format() {
    let err1 = parse_push_to_remote_flag("invalid");
    assert!(err1.is_err());
    assert!(err1.unwrap_err().to_string().contains("--push-to-remote"));

    let err2 = parse_push_to_remote_flag("");
    assert!(err2.is_err());
    assert!(err2.unwrap_err().to_string().contains("Invalid value"));
}

#[test]
fn task_create_refuses_both_prompt_sources() {
    let mut a = args(Some("b"), Some("text"), None, None, true);
    assert!(a.check_prompt_options().is_ok());
    a.prompt_file = Some("file.txt".to_string());
    assert_eq!(
        a.check_prompt_options(),
        Err("Error: --prompt and --prompt-file are mutually exclusive".to_string())
    );
}

#[test]
fn task_create_blank_branch_appends() {
    assert_eq!(args(Some("feature"), None, None, None, true).new_branch_name(), Some("feature".to_string()));
    assert_eq!(args(Some("  \t"), None, None, None, true).new_branch_name(), None);
    assert_eq!(args(Some(""), None, None, None, true).new_branch_name(), None);
    assert_eq!(args(None, None, None, None, true).new_branch_name(), None);
}

#[test]
fn task_create_refuses_main_branches_and_devshell() {
    let a = args(None, Some("t"), None, None, true);
    for b in ["main", "master", "trunk", "default", "develop-default"] {
        let r = a.validate_existing_branch(b, "develop-default");
        assert_eq!(r, Err("Error: Refusing to run on the main branch".to_string()), "{}", b);
    }
    assert_eq!(a.validate_existing_branch("feature-x", "main"), Ok(()));
    let d = args(None, Some("t"), Some("custom"), None, true);
    assert_eq!(
        d.validate_existing_branch("feature-x", "main"),
        Err("Error: --devshell is only supported when creating a new branch".to_string())
    );
}

#[test]
fn task_create_checks_devshell() {
    let shells = vec!["default".to_string(), "custom".to_string()];
    assert_eq!(args(Some("b"), None, None, None, true).check_devshell(false, &vec![]), Ok(()));
    let d = args(Some("b"), None, Some("custom"), None, true);
    assert_eq!(d.check_devshell(true, &shells), Ok(()));
    assert_eq!(
        d.check_devshell(false, &shells),
        Err("Error: Repository does not contain a flake.nix file".to_string())
    );
    let e = args(Some("b"), None, Some("other"), None, true);
    assert_eq!(e.check_devshell(true, &shells), Err("Error: Dev shell 'other' not found in flake.nix".to_string()));
}

#[test]
fn task_create_content_sources() {
    let ni = args(Some("b"), None, None, None, true);
    assert_eq!(ni.content_plan(Some("text".to_string())), Ok(Some("text".to_string())));
    assert_eq!(
        ni.content_plan(None),
        Err("Error: Non-interactive mode requires --prompt or --prompt-file".to_string())
    );
    let i = args(Some("b"), None, None, None, false);
    assert_eq!(i.content_plan(None), Ok(None));
    assert_eq!(check_task_content(""), Err("Aborted: empty task prompt.".to_string()));
    assert_eq!(check_task_content("   \n\t   "), Err("Aborted: empty task prompt.".to_string()));
    assert_eq!(check_task_content(" do it "), Ok(()));
}

#[test]
fn task_create_push_plans() {
    assert_eq!(args(None, None, None, Some("YES"), true).push_plan(), Ok(Some(Some(true))));
    assert_eq!(args(None, None, None, Some("0"), false).push_plan(), Ok(Some(Some(false))));
    assert_eq!(args(None, None, None, None, false).push_plan(), Ok(Some(None)));
    assert_eq!(args(None, None, None, None, true).push_plan(), Ok(None));
    let err = args(None, None, None, Some("maybe"), true).push_plan().unwrap_err();
    assert!(err.contains("--push-to-remote"));
    assert!(!args(None, None, None, None, true).uses_sandbox());
    let mut s = args(None, None, None, None, true);
    s.sandbox = "local".to_string();
    assert!(s.uses_sandbox());
}

#[test]
fn task_create_records() {
    let s = session_record_for("sid".to_string(), 1, 2, 3, "2024-01-01T00:00:00+00:00".to_string());
    assert_eq!(s.id, "sid");
    assert_eq!((s.repo_id, s.agent_id, s.runtime_id, s.workspace_id), (Some(1), Some(2), Some(3), None));
    assert_eq!(s.status, "created");
    assert_eq!(s.started_at, "2024-01-01T00:00:00+00:00");
    assert!(s.ended_at.is_none() && s.pid_agent.is_none());
    let t = task_record_for("sid".to_string(), "do it".to_string(), "feature".to_string());
    assert_eq!(t.id, 0);
    assert_eq!(t.branch, Some("feature".to_string()));
    assert_eq!(t.delivery, Some("branch".to_string()));
    assert_eq!(t.instances, Some(1));
    assert_eq!(t.browser_automation, 1);
    match TaskCommands::Create(t_args()) {
        TaskCommands::Create(a) => assert_eq!(a.sandbox, "none"),
    }
}

fn t_args() -> TaskCreateArgs {
    args(None, None, None, None, true)
}
