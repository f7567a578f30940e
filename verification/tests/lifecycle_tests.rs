//! Task and session lifecycles, and the stored form of tasks.

use agentfs_core::core_error::CoreError;
use agentfs_core::records::{self, TaskRecord};
use agentfs_core::sessions::{SessionId, SessionManager, SessionStatus};
use agentfs_core::tasks::{TaskId, TaskManager, TaskStatus};

#[test]
fn tasks_are_numbered_from_one() {
    let mut m = TaskManager::new();
    let a = m.create_task("a".to_string(), "first".to_string()).unwrap();
    let b = m.create_task("b".to_string(), "second".to_string()).unwrap();
    assert_eq!((a, b), (TaskId(1), TaskId(2)));
    let t = m.get_task(b).unwrap().unwrap();
    assert_eq!((t.name.as_str(), t.description.as_str(), t.status), ("b", "second", TaskStatus::Pending));
    assert_eq!(t.created_at, t.updated_at);
    assert!(t.metadata.is_empty());
    assert!(m.get_task(TaskId(3)).unwrap().is_none());
    assert!(m.get_task(TaskId(0)).unwrap().is_none());
}

#[test]
fn task_status_updates_show() {
    let mut m = TaskManager::default();
    let a = m.create_task("a".to_string(), "x".to_string()).unwrap();
    m.update_task_status(a, TaskStatus::Running).unwrap();
    assert_eq!(m.get_task(a).unwrap().unwrap().status, TaskStatus::Running);
    match m.update_task_status(TaskId(42), TaskStatus::Failed) {
        Err(CoreError::Task { message }) => assert_eq!(message, "Task 42 not found"),
        other => panic!("unexpected {:?}", other),
    }
    let all = m.list_tasks().unwrap();
    assert_eq!(all.len(), 1);
    assert_eq!(all[0].status, TaskStatus::Running);
}

#[test]
fn sessions_record_start_and_finish_once() {
    let mut m = SessionManager::new();
    let s = m.create_session(TaskId(7), "s".to_string()).unwrap();
    assert_eq!(s, SessionId(1));
    let fresh = m.get_session(s).unwrap().unwrap();
    assert_eq!(fresh.status, SessionStatus::Created);
    assert!(fresh.started_at.is_none() && fresh.finished_at.is_none());
    m.update_session_status(s, SessionStatus::Active).unwrap();
    let started = m.get_session(s).unwrap().unwrap().started_at.expect("start recorded");
    m.update_session_status(s, SessionStatus::Paused).unwrap();
    m.update_session_status(s, SessionStatus::Active).unwrap();
    assert_eq!(m.get_session(s).unwrap().unwrap().started_at, Some(started));
    m.update_session_status(s, SessionStatus::Completed).unwrap();
    let done = m.get_session(s).unwrap().unwrap();
    let finished = done.finished_at.expect("finish recorded");
    m.update_session_status(s, SessionStatus::Failed).unwrap();
    let again = m.get_session(s).unwrap().unwrap();
    assert_eq!(again.finished_at, Some(finished));
    assert_eq!(again.status, SessionStatus::Failed);
}

#[test]
fn sessions_listed_by_task() {
    let mut m = SessionManager::default();
    m.create_session(TaskId(1), "a".to_string()).unwrap();
    m.create_session(TaskId(2), "b".to_string()).unwrap();
    m.create_session(TaskId(1), "c".to_string()).unwrap();
    let of_one: Vec<String> = m.list_sessions_for_task(TaskId(1)).unwrap().into_iter().map(|s| s.name).collect();
    assert_eq!(of_one, vec!["a".to_string(), "c".to_string()]);
    assert_eq!(m.list_sessions().unwrap().len(), 3);
    assert!(m.list_sessions_for_task(TaskId(9)).unwrap().is_empty());
    match m.update_session_status(SessionId(9), SessionStatus::Active) {
        Err(CoreError::Session { message }) => assert_eq!(message, "Session 9 not found"),
        other => panic!("unexpected {:?}", other),
    }
}

#[test]
fn stored_tasks_convert() {
    let row = TaskRecord {
        id: 12,
        session_id: "s".to_string(),
        prompt: "write tests".to_string(),
        branch: None,
        delivery: None,
        instances: None,
        labels: None,
        browser_automation: 0,
        browser_profile: None,
        chatgpt_username: None,
        codex_workspace: None,
    };
    let t = row.to_task();
    assert_eq!(t.id, records::TaskId(12));
    assert_eq!(t.name, "Task 12");
    assert_eq!(t.description, "write tests");
    assert_eq!(t.status, records::TaskStatus::Pending);
    let back = TaskRecord::from_task(&t);
    assert_eq!((back.id, back.prompt.as_str(), back.session_id.as_str()), (12, "write tests", ""));
    assert_eq!(back.browser_automation, 1);
    let core = t.to_ah_core_task();
    assert_eq!(core.id, TaskId(12));
    assert_eq!(core.status, TaskStatus::Pending);
    let negative = TaskRecord { id: -3, ..row.clone() };
    assert_eq!(negative.to_task().name, "Task -3");
}
