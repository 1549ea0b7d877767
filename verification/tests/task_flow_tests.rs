use openleash::daemon::{approval_update, parse_task_id, task_environment};
use openleash::flow::Refusal;
use openleash::models::{ApprovalScope, Lease, LeaseStatus, PackageManager, Task, TaskStatus, Timestamp};
use openleash::tasks::{TaskAction, TaskDraw, TaskEvent, TaskJob, TaskReply, TaskSession};

fn draw(id: u128) -> TaskDraw {
    TaskDraw { id, now: Timestamp { secs: 1_000, nanos: 3 } }
}

fn done() -> TaskEvent {
    TaskEvent::Done(Ok(()))
}

fn task(id: u128) -> Task {
    Task {
        id,
        name: "t".to_string(),
        scope_path: "/w/task-x".to_string(),
        status: TaskStatus::Active,
        created_at: Timestamp { secs: 0, nanos: 0 },
        expires_at: Timestamp { secs: 10, nanos: 0 },
    }
}

#[test]
fn start_creates_scope_records_and_audits() {
    let job = TaskJob::Start { name: "Data Analysis".to_string(), base: "/tmp/work".to_string(), ttl_seconds: 5 };
    let (s, a) = TaskSession::new(job).step(TaskEvent::Begin, draw(1));
    let scope = "/tmp/work/task-00000000-0000-0000-0000-000000000001";
    assert!(matches!(&a, TaskAction::CreateScope(p) if p == scope));
    let (s, a) = s.step(done(), draw(9));
    match &a {
        TaskAction::StoreTask(t) => {
            assert_eq!(t.id, 1);
            assert_eq!(t.name, "Data Analysis");
            assert_eq!(t.scope_path, scope);
            assert_eq!(t.status, TaskStatus::Active);
            assert_eq!(t.expires_at, Timestamp { secs: 1_060, nanos: 3 });
        }
        other => panic!("unexpected {:?}", other),
    }
    let (s, a) = s.step(done(), draw(9));
    match &a {
        TaskAction::Audit(rec) => {
            assert_eq!(rec.event_type, "TASK");
            assert_eq!(rec.action, "START");
            assert_eq!(rec.resource_id, "00000000-0000-0000-0000-000000000001");
            assert_eq!(rec.metadata, vec![("name".to_string(), "Data Analysis".to_string())]);
        }
        other => panic!("unexpected {:?}", other),
    }
    let (s, a) = s.step(done(), draw(9));
    assert!(s.is_finished());
    match a {
        TaskAction::Reply(TaskReply::Started { task_id, scope_path }) => {
            assert_eq!(task_id, "00000000-0000-0000-0000-000000000001");
            assert_eq!(scope_path, scope);
        }
        other => panic!("unexpected {:?}", other),
    }
}

#[test]
fn start_fails_when_the_scope_cannot_be_made() {
    let job = TaskJob::Start { name: "n".to_string(), base: "/b".to_string(), ttl_seconds: 999_999 };
    let (s, a) = TaskSession::new(job).step(TaskEvent::Begin, draw(2));
    assert!(matches!(a, TaskAction::CreateScope(_)));
    let (_, a) = s.step(TaskEvent::Done(Err("python3 missing".to_string())), draw(2));
    assert!(matches!(a, TaskAction::Fail(Refusal::Internal(m)) if m == "Failed to create task venv: python3 missing"));
}

#[test]
fn ending_a_task_tears_it_down_in_order() {
    let job = TaskJob::End { task_id: "00000000-0000-0000-0000-000000000007".to_string() };
    let (s, a) = TaskSession::new(job).step(TaskEvent::Begin, draw(0));
    assert!(matches!(a, TaskAction::LookupTask(7)));
    let (s, a) = s.step(TaskEvent::TaskFound(Ok(task(7))), draw(0));
    assert!(matches!(&a, TaskAction::RemoveScope(p) if p == "/w/task-x"));
    let (s, a) = s.step(TaskEvent::Done(Err("busy".to_string())), draw(0));
    assert!(matches!(a, TaskAction::LookupLeases(7)));
    let (s, a) = s.step(TaskEvent::LeasesFound(Ok(vec![11, 12])), draw(0));
    assert!(matches!(&a, TaskAction::ExpireLeases(v) if *v == vec![11, 12]));
    let (s, a) = s.step(done(), draw(0));
    assert!(matches!(a, TaskAction::DeleteApprovals(7)));
    let (s, a) = s.step(TaskEvent::Done(Err("locked".to_string())), draw(0));
    assert!(matches!(a, TaskAction::SetTaskStatus(7, TaskStatus::Completed)));
    let (s, a) = s.step(done(), draw(0));
    match &a {
        TaskAction::Audit(rec) => {
            assert_eq!(rec.action, "END");
            assert_eq!(rec.resource_id, "00000000-0000-0000-0000-000000000007");
            assert!(rec.metadata.is_empty());
        }
        other => panic!("unexpected {:?}", other),
    }
    let (s, a) = s.step(done(), draw(0));
    assert!(matches!(a, TaskAction::Reply(TaskReply::Ended)));
    assert!(s.is_finished());
}

#[test]
fn ending_an_unknown_task_is_refused() {
    let (_, a) = TaskSession::new(TaskJob::End { task_id: "nope".to_string() }).step(TaskEvent::Begin, draw(0));
    assert!(matches!(a, TaskAction::Fail(Refusal::InvalidArgument(m)) if m == "Invalid task_id"));
    let job = TaskJob::End { task_id: "00000000-0000-0000-0000-000000000007".to_string() };
    let (s, _) = TaskSession::new(job).step(TaskEvent::Begin, draw(0));
    let (_, a) = s.step(TaskEvent::TaskFound(Err("no rows".to_string())), draw(0));
    assert!(matches!(a, TaskAction::Fail(Refusal::NotFound(m)) if m == "Task not found: no rows"));
}

#[test]
fn expired_task_is_marked_expired_without_audit() {
    let (s, _) = TaskSession::new(TaskJob::Expire { id: 7 }).step(TaskEvent::Begin, draw(0));
    let (s, _) = s.step(TaskEvent::TaskFound(Ok(task(7))), draw(0));
    let (s, _) = s.step(done(), draw(0));
    let (s, _) = s.step(TaskEvent::LeasesFound(Ok(vec![])), draw(0));
    let (s, _) = s.step(done(), draw(0));
    let (s, a) = s.step(done(), draw(0));
    assert!(matches!(a, TaskAction::SetTaskStatus(7, TaskStatus::Expired)));
    let (s, a) = s.step(done(), draw(0));
    assert!(matches!(a, TaskAction::Reply(TaskReply::Cleaned)));
    assert!(s.is_finished());
}

#[test]
fn expired_lease_is_uninstalled_then_marked() {
    let lease = Lease {
        id: 5,
        request_id: 6,
        task_id: None,
        status: LeaseStatus::Active,
        manager: PackageManager::Npm,
        package_name: "left-pad".to_string(),
        package_version: "unknown".to_string(),
        scope_path: "/s".to_string(),
        expires_at: Timestamp { secs: 0, nanos: 0 },
    };
    let (s, a) = TaskSession::new(TaskJob::ExpireLease { lease }).step(TaskEvent::Begin, draw(0));
    assert!(matches!(&a, TaskAction::RemoveScope(p) if p == "/s"));
    let (s, a) = s.step(done(), draw(0));
    assert!(matches!(a, TaskAction::ExpireLease(5)));
    let (_, a) = s.step(TaskEvent::Done(Err("db".to_string())), draw(0));
    assert!(matches!(a, TaskAction::Fail(Refusal::Internal(m)) if m == "Failed to update lease status: db"));
}

#[test]
fn approver_decisions_name_their_update() {
    let (id, status, scope) = approval_update("00000000-0000-0000-0000-00000000000a", true, Some("PERMANENT")).unwrap();
    assert_eq!((id, status.as_str(), scope), (10, "Approved", Some(ApprovalScope::Permanent)));
    let (_, status, scope) = approval_update("00000000-0000-0000-0000-00000000000a", true, Some("forever")).unwrap();
    assert_eq!((status.as_str(), scope), ("Approved", None));
    let (_, status, scope) = approval_update("00000000-0000-0000-0000-00000000000a", false, Some("task")).unwrap();
    assert_eq!((status.as_str(), scope), ("Denied", None));
    assert!(matches!(approval_update("ten", true, None), Err(Refusal::InvalidArgument(m)) if m == "Invalid approval_id"));
    assert_eq!(parse_task_id("00000000-0000-0000-0000-000000000007").unwrap(), 7);
    assert!(matches!(parse_task_id("7"), Err(Refusal::InvalidArgument(m)) if m == "Invalid task_id"));
}

#[test]
fn task_environment_lives_with_the_task() {
    let job = TaskJob::Start { name: "test-task".to_string(), base: "/tmp".to_string(), ttl_seconds: 3600 };
    let (s, _) = TaskSession::new(job).step(TaskEvent::Begin, draw(7));
    let (_, a) = s.step(done(), draw(7));
    let mut task = match a {
        TaskAction::StoreTask(t) => t,
        other => panic!("unexpected {:?}", other),
    };
    let (bin, scope) = task_environment(Some(&task)).unwrap();
    assert_eq!(scope, "/tmp/task-00000000-0000-0000-0000-000000000007");
    assert_eq!(bin, format!("{}/bin", scope));
    task.status = TaskStatus::Completed;
    assert!(matches!(task_environment(Some(&task)), Err(Refusal::FailedPrecondition(m)) if m.contains("no longer active")));
    assert!(matches!(task_environment(None), Err(Refusal::FailedPrecondition(m)) if m == "Task not found or inactive"));
}
