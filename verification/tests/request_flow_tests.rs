use openleash::flow::Refusal;
use openleash::models::{
    ApprovalRequest, ApprovalScope, LeaseStatus, PackageManager, Policy, ResourceType, Task, TaskStatus,
    Timestamp,
};
use openleash::policy::PolicyEngine;
use openleash::requests::{start_request, Action, AgentRequest, Draw, Event, Reply, RequestKind, RequestSession};

const REQUEST_UUID: &str = "67e55044-10b1-426f-9247-bb680e5fe0c8";
const REQUEST_U128: u128 = 0x67e5504410b1426f9247bb680e5fe0c8;

fn now() -> Timestamp {
    Timestamp { secs: 1_700_000_000, nanos: 7 }
}

fn draw(id: u128, other_id: u128) -> Draw {
    Draw { id, other_id, now: now() }
}

fn policy(id: &str, rt: ResourceType, patterns: &[&str], auto_approve: bool, scope: ApprovalScope) -> Policy {
    Policy {
        id: id.to_string(),
        name: id.to_string(),
        description: None,
        resource_type: rt,
        priority: 10,
        allowed_patterns: patterns.iter().map(|p| p.to_string()).collect(),
        max_ttl_seconds: 3600,
        auto_approve,
        default_scope: scope,
    }
}

fn engine() -> PolicyEngine {
    PolicyEngine::new(vec![
        policy("safe", ResourceType::Package, &["^requests$"], true, ApprovalScope::Once),
        policy("ask", ResourceType::Secret, &["^api-"], false, ApprovalScope::Task),
    ])
}

fn request(kind: RequestKind, resource: &str, task_id: Option<&str>) -> AgentRequest {
    AgentRequest {
        kind,
        request_id: REQUEST_UUID.to_string(),
        resource_id: resource.to_string(),
        reason: "build".to_string(),
        task_id: task_id.map(|t| t.to_string()),
        manager: "pip".to_string(),
        scope_path: "/tmp/scope".to_string(),
        ttl_seconds: 3600,
        value: "s3cret".to_string(),
    }
}

fn pairs(v: &[(String, String)]) -> Vec<(&str, &str)> {
    v.iter().map(|(k, x)| (k.as_str(), x.as_str())).collect()
}

#[test]
fn allowed_package_is_installed_audited_and_leased() {
    let e = engine();
    let s = RequestSession::new(request(RequestKind::Package, "requests", None));
    let (s, a) = s.step(&e, Event::Begin, draw(1, 2));
    match a {
        Action::CheckGrant(rt, id, task) => {
            assert_eq!(rt, ResourceType::Package);
            assert_eq!(id, "requests");
            assert_eq!(task, None);
        }
        other => panic!("unexpected {:?}", other),
    }
    let (s, a) = s.step(&e, Event::Granted(false), draw(3, 4));
    match a {
        Action::Install(m, p, scope) => {
            assert_eq!(m, PackageManager::Pip);
            assert_eq!(p, "requests");
            assert_eq!(scope, "/tmp/scope");
        }
        other => panic!("unexpected {:?}", other),
    }
    let (s, a) = s.step(&e, Event::Installed(Ok(())), draw(5, 6));
    match a {
        Action::Audit(rec) => {
            assert_eq!(rec.event_type, "PACKAGE");
            assert_eq!(rec.actor, "agent");
            assert_eq!(rec.action, "INSTALL");
            assert_eq!(rec.status, "SUCCESS");
            assert_eq!(pairs(&rec.metadata), vec![("manager", "pip"), ("reason", "build")]);
        }
        other => panic!("unexpected {:?}", other),
    }
    let (s, a) = s.step(&e, Event::Audited(Ok(())), draw(77, 78));
    match a {
        Action::StoreLease(l) => {
            assert_eq!(l.id, 77);
            assert_eq!(l.request_id, REQUEST_U128);
            assert_eq!(l.status, LeaseStatus::Active);
            assert_eq!(l.package_version, "unknown");
            assert_eq!(l.scope_path, "/tmp/scope");
            assert_eq!(l.expires_at, Timestamp { secs: 1_700_003_600, nanos: 7 });
        }
        other => panic!("unexpected {:?}", other),
    }
    let (s, a) = s.step(&e, Event::LeaseStored(Ok(())), draw(9, 10));
    assert!(s.is_finished());
    match a {
        Action::Reply(Reply::Package(r)) => {
            assert_eq!(r.request_id, REQUEST_UUID);
            assert_eq!(r.status, "EXECUTED");
            assert_eq!(r.lease_id, "00000000-0000-0000-0000-00000000004d");
            assert_eq!(r.error_message, "");
        }
        other => panic!("unexpected {:?}", other),
    }
}

#[test]
fn unknown_manager_is_refused() {
    let mut req = request(RequestKind::Package, "requests", None);
    req.manager = "cargo".to_string();
    let (s, a) = RequestSession::new(req).step(&engine(), Event::Begin, draw(1, 2));
    assert!(s.is_finished());
    match a {
        Action::Fail(Refusal::InvalidArgument(m)) => assert_eq!(m, "Unsupported package manager"),
        other => panic!("unexpected {:?}", other),
    }
}

#[test]
fn failed_install_is_audited_then_refused() {
    let e = engine();
    let s = RequestSession::new(request(RequestKind::Package, "requests", None));
    let (s, _) = s.step(&e, Event::Begin, draw(1, 2));
    let (s, _) = s.step(&e, Event::Granted(true), draw(1, 2));
    let (s, a) = s.step(&e, Event::Installed(Err("no network".to_string())), draw(1, 2));
    match a {
        Action::Audit(rec) => assert_eq!(rec.status, "FAILED"),
        other => panic!("unexpected {:?}", other),
    }
    let (_, a) = s.step(&e, Event::Audited(Ok(())), draw(1, 2));
    match a {
        Action::Fail(Refusal::Internal(m)) => assert_eq!(m, "Installation failed: no network"),
        other => panic!("unexpected {:?}", other),
    }
}

#[test]
fn ended_task_is_refused() {
    let e = engine();
    let s = RequestSession::new(request(RequestKind::StoreSecret, "api-key", Some(REQUEST_UUID)));
    let (s, a) = s.step(&e, Event::Begin, draw(1, 2));
    match a {
        Action::LookupTask(id) => assert_eq!(id, REQUEST_U128),
        other => panic!("unexpected {:?}", other),
    }
    let task = Task {
        id: REQUEST_U128,
        name: "t".to_string(),
        scope_path: "/tmp/t".to_string(),
        status: TaskStatus::Completed,
        created_at: now(),
        expires_at: now(),
    };
    let (s, a) = s.step(&e, Event::TaskFound(Some(task)), draw(1, 2));
    assert!(s.is_finished());
    match a {
        Action::Fail(Refusal::FailedPrecondition(m)) => assert_eq!(m, "Task is no longer active"),
        other => panic!("unexpected {:?}", other),
    }
}

#[test]
fn locked_keychain_asks_for_unlock() {
    let e = engine();
    let s = RequestSession::new(request(RequestKind::Secret, "api-key", None));
    let (s, a) = s.step(&e, Event::Begin, draw(1, 2));
    assert!(matches!(a, Action::CheckLocked));
    let (s, a) = s.step(&e, Event::LockState(true), draw(1, 2));
    match a {
        Action::LookupApproval(id) => assert_eq!(id, REQUEST_U128),
        other => panic!("unexpected {:?}", other),
    }
    let (s, a) = s.step(&e, Event::ApprovalFound(Ok(None)), draw(55, 2));
    match a {
        Action::FileApproval(q) => {
            assert_eq!(q.id, 55);
            assert_eq!(q.request_id, REQUEST_U128);
            assert_eq!(q.resource_type, ResourceType::System);
            assert_eq!(q.resource_id, "keychain-unlock");
            assert_eq!(q.status, "Pending");
            assert_eq!(q.expires_at, Timestamp { secs: 1_700_000_900, nanos: 7 });
        }
        other => panic!("unexpected {:?}", other),
    }
    let (s, a) = s.step(&e, Event::Filed(Ok(())), draw(1, 2));
    assert!(matches!(&a, Action::NotifyApprovers(q) if q.id == 55 && q.resource_id == "keychain-unlock"));
    let (s, a) = s.step(&e, Event::Notified, draw(1, 2));
    assert!(s.is_finished());
    match a {
        Action::Reply(Reply::Secret(r)) => {
            assert_eq!(r.status, "LOCKED");
            assert_eq!(r.error_message, "Keychain is locked. Unlock request sent to Telegram.");
            assert_eq!(r.value, "");
        }
        other => panic!("unexpected {:?}", other),
    }
}

fn recorded(status: &str) -> ApprovalRequest {
    ApprovalRequest {
        id: 5,
        request_id: REQUEST_U128,
        task_id: None,
        resource_type: ResourceType::Secret,
        resource_id: "api-key".to_string(),
        reason: "build".to_string(),
        status: status.to_string(),
        scope: ApprovalScope::Task,
        created_at: now(),
        expires_at: now(),
    }
}

#[test]
fn approved_secret_is_fetched_audited_and_granted() {
    let e = engine();
    let s = RequestSession::new(request(RequestKind::Secret, "api-key", None));
    let (s, _) = s.step(&e, Event::Begin, draw(1, 2));
    let (s, _) = s.step(&e, Event::LockState(false), draw(1, 2));
    let (s, a) = s.step(&e, Event::Granted(false), draw(1, 2));
    assert!(matches!(a, Action::LookupApproval(id) if id == REQUEST_U128));
    let (s, a) = s.step(&e, Event::ApprovalFound(Ok(Some(recorded("Approved")))), draw(1, 2));
    match a {
        Action::FetchSecret(id) => assert_eq!(id, "api-key"),
        other => panic!("unexpected {:?}", other),
    }
    let (s, a) = s.step(&e, Event::Fetched(Ok("v4lue".to_string())), draw(1, 2));
    match a {
        Action::Audit(rec) => {
            assert_eq!(rec.event_type, "SECRET");
            assert_eq!(rec.action, "ACCESS");
            assert_eq!(rec.status, "GRANTED");
            assert_eq!(pairs(&rec.metadata), vec![("reason", "build")]);
        }
        other => panic!("unexpected {:?}", other),
    }
    let (s, a) = s.step(&e, Event::Audited(Ok(())), draw(255, 2));
    assert!(s.is_finished());
    match a {
        Action::Reply(Reply::Secret(r)) => {
            assert_eq!(r.status, "GRANTED");
            assert_eq!(r.value, "v4lue");
            assert_eq!(r.lease_id, "00000000-0000-0000-0000-0000000000ff");
        }
        other => panic!("unexpected {:?}", other),
    }
}

#[test]
fn denied_secret_is_audited_then_refused() {
    let e = engine();
    let s = RequestSession::new(request(RequestKind::Secret, "api-key", None));
    let (s, _) = s.step(&e, Event::Begin, draw(1, 2));
    let (s, _) = s.step(&e, Event::LockState(false), draw(1, 2));
    let (s, _) = s.step(&e, Event::Granted(false), draw(1, 2));
    let (s, a) = s.step(&e, Event::ApprovalFound(Ok(Some(recorded("Denied")))), draw(1, 2));
    match a {
        Action::Audit(rec) => {
            assert_eq!(rec.status, "DENIED");
            assert_eq!(pairs(&rec.metadata), vec![("reason", "Request was denied by human approver")]);
        }
        other => panic!("unexpected {:?}", other),
    }
    let (s, a) = s.step(&e, Event::Audited(Ok(())), draw(1, 2));
    assert!(s.is_finished());
    match a {
        Action::Fail(Refusal::PermissionDenied(m)) => assert_eq!(m, "Request was denied by human approver"),
        other => panic!("unexpected {:?}", other),
    }
}

#[test]
fn unmatched_secret_is_denied_by_policy() {
    let e = engine();
    let s = RequestSession::new(request(RequestKind::Secret, "db-password", None));
    let (s, _) = s.step(&e, Event::Begin, draw(1, 2));
    let (s, _) = s.step(&e, Event::LockState(false), draw(1, 2));
    let (s, a) = s.step(&e, Event::Granted(false), draw(1, 2));
    match a {
        Action::Audit(rec) => assert_eq!(pairs(&rec.metadata), vec![("reason", "No matching policy found")]),
        other => panic!("unexpected {:?}", other),
    }
    let (_, a) = s.step(&e, Event::Audited(Err("disk full".to_string())), draw(1, 2));
    match a {
        Action::Fail(Refusal::Internal(m)) => assert_eq!(m, "Audit failed: disk full"),
        other => panic!("unexpected {:?}", other),
    }
}

#[test]
fn store_request_waits_for_a_human() {
    let e = engine();
    let mut req = request(RequestKind::StoreSecret, "api-token", None);
    req.request_id = "not-a-uuid".to_string();
    let s = RequestSession::new(req);
    let (s, a) = s.step(&e, Event::Begin, draw(1, 2));
    assert!(matches!(a, Action::CheckGrant(ResourceType::Secret, _, None)));
    let (s, a) = s.step(&e, Event::Granted(false), draw(42, 2));
    assert!(matches!(a, Action::LookupApproval(42)));
    let (s, a) = s.step(&e, Event::ApprovalFound(Ok(None)), draw(43, 2));
    match a {
        Action::FileApproval(q) => {
            assert_eq!(q.id, 43);
            assert_eq!(q.request_id, 42);
            assert_eq!(q.scope, ApprovalScope::Task);
            assert_eq!(q.reason, "build");
        }
        other => panic!("unexpected {:?}", other),
    }
    let (s, a) = s.step(&e, Event::Filed(Ok(())), draw(1, 2));
    assert!(matches!(&a, Action::NotifyApprovers(q) if q.id == 43 && q.request_id == 42));
    let (s, a) = s.step(&e, Event::Notified, draw(1, 2));
    assert!(s.is_finished());
    match a {
        Action::Reply(Reply::Store(r)) => {
            assert!(!r.success);
            assert_eq!(r.request_id, "not-a-uuid");
            assert_eq!(r.error_message, "Request is pending human approval");
        }
        other => panic!("unexpected {:?}", other),
    }
}

#[test]
fn audit_records_seal_into_the_chain() {
    let e = engine();
    let s = RequestSession::new(request(RequestKind::Package, "requests", None));
    let (s, _) = s.step(&e, Event::Begin, draw(1, 2));
    let (s, _) = s.step(&e, Event::Granted(true), draw(1, 2));
    let (_, a) = s.step(&e, Event::Installed(Ok(())), draw(1, 2));
    let rec = match a {
        Action::Audit(rec) => rec,
        other => panic!("unexpected {:?}", other),
    };
    let first = rec.seal(40, now(), None).unwrap();
    assert_eq!(first.id, 40);
    assert_eq!(first.action, "INSTALL");
    assert_eq!(first.integrity_hash, first.calculate_integrity_hash("START").unwrap());
    let again = first.calculate_integrity_hash("START").unwrap();
    let s2 = RequestSession::new(request(RequestKind::Package, "requests", None));
    let (s2, _) = s2.step(&e, Event::Begin, draw(1, 2));
    let (s2, _) = s2.step(&e, Event::Granted(true), draw(1, 2));
    let (_, a2) = s2.step(&e, Event::Installed(Ok(())), draw(1, 2));
    if let Action::Audit(rec2) = a2 {
        let second = rec2.seal(41, now(), Some(again.clone())).unwrap();
        assert_eq!(second.integrity_hash, second.calculate_integrity_hash(&again).unwrap());
        assert_ne!(second.integrity_hash, first.integrity_hash);
    } else {
        panic!("expected an audit");
    }
}

#[test]
fn first_step_gates_on_the_named_task() {
    let e = engine();
    let (s, a) = start_request(&e, request(RequestKind::Secret, "api-key", Some(REQUEST_UUID)), draw(1, 2));
    assert!(matches!(a, Action::LookupTask(id) if id == REQUEST_U128));
    let (s, a) = s.step(&e, Event::TaskFound(None), draw(1, 2));
    assert!(s.is_finished());
    assert!(matches!(a, Action::Fail(Refusal::FailedPrecondition(m)) if m == "Task not found or inactive"));
    let (_, a) = start_request(&e, request(RequestKind::Secret, "api-key", Some("not-a-uuid")), draw(1, 2));
    assert!(matches!(a, Action::CheckLocked));
}

#[test]
fn once_approval_does_not_cover_a_new_request() {
    let e = engine();
    let mut req = request(RequestKind::Secret, "api-key", None);
    req.request_id = "11111111-1111-1111-1111-111111111111".to_string();
    let (s, _) = start_request(&e, req, draw(1, 2));
    let (s, _) = s.step(&e, Event::LockState(false), draw(1, 2));
    let (s, a) = s.step(&e, Event::Granted(false), draw(1, 2));
    assert!(matches!(a, Action::LookupApproval(id) if id == 0x11111111111111111111111111111111));
    let (s, a) = s.step(&e, Event::ApprovalFound(Ok(None)), draw(3, 4));
    assert!(matches!(a, Action::FileApproval(_)));
    let (s, a) = s.step(&e, Event::Filed(Ok(())), draw(1, 2));
    assert!(matches!(a, Action::NotifyApprovers(_)));
    let (_, a) = s.step(&e, Event::Notified, draw(1, 2));
    assert!(matches!(a, Action::Reply(Reply::Secret(r)) if r.status == "PENDING_APPROVAL"));
}

#[test]
fn failed_record_notifies_nobody() {
    let e = engine();
    let (s, _) = start_request(&e, request(RequestKind::StoreSecret, "api-token", None), draw(1, 2));
    let (s, _) = s.step(&e, Event::Granted(false), draw(42, 2));
    let (s, _) = s.step(&e, Event::ApprovalFound(Ok(None)), draw(43, 2));
    let (s, a) = s.step(&e, Event::Filed(Err("disk full".to_string())), draw(1, 2));
    assert!(s.is_finished());
    assert!(matches!(a, Action::Fail(Refusal::Internal(m)) if m == "disk full"));
}
