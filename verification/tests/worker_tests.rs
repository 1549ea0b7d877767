use openleash::daemon::list_pending;
use openleash::models::{
    ApprovalRequest, ApprovalScope, Lease, LeaseStatus, PackageManager, ResourceType, Task, TaskStatus, Timestamp,
};
use openleash::store::{expired_leases, expired_tasks, leases_of_task};
use openleash::telegram::TelegramApprovalBackend;

fn at(secs: i64) -> Timestamp {
    Timestamp { secs, nanos: 0 }
}

fn task(id: u128, status: TaskStatus, expires: i64) -> Task {
    Task {
        id,
        name: format!("t{}", id),
        scope_path: format!("/tmp/t{}", id),
        status,
        created_at: at(0),
        expires_at: at(expires),
    }
}

fn lease(id: u128, task_id: Option<u128>, status: LeaseStatus, expires: i64) -> Lease {
    Lease {
        id,
        request_id: id + 100,
        task_id,
        status,
        manager: PackageManager::Pip,
        package_name: "six".to_string(),
        package_version: "unknown".to_string(),
        scope_path: "/tmp/s".to_string(),
        expires_at: at(expires),
    }
}

#[test]
fn worker_finds_overdue_active_tasks() {
    let tasks = vec![
        task(1, TaskStatus::Active, 50),
        task(2, TaskStatus::Active, 150),
        task(3, TaskStatus::Completed, 10),
        task(4, TaskStatus::Active, 99),
        task(5, TaskStatus::Active, 100),
    ];
    assert_eq!(expired_tasks(&tasks, at(100)), vec![0, 3]);
    assert!(expired_tasks(&tasks, at(0)).is_empty());
}

#[test]
fn worker_finds_overdue_standalone_leases() {
    let leases = vec![
        lease(1, None, LeaseStatus::Active, 10),
        lease(2, Some(9), LeaseStatus::Active, 10),
        lease(3, None, LeaseStatus::Expired, 10),
        lease(4, None, LeaseStatus::Active, 500),
        lease(5, None, LeaseStatus::Active, 20),
    ];
    assert_eq!(expired_leases(&leases, at(100)), vec![0, 4]);
}

#[test]
fn task_cleanup_covers_its_leases() {
    let leases = vec![
        lease(1, Some(7), LeaseStatus::Active, 10),
        lease(2, None, LeaseStatus::Active, 10),
        lease(3, Some(8), LeaseStatus::Active, 10),
        lease(4, Some(7), LeaseStatus::Expired, 10),
    ];
    assert_eq!(leases_of_task(&leases, 7), vec![0, 3]);
    assert!(leases_of_task(&leases, 9).is_empty());
}

fn approval(id: u128, status: &str) -> ApprovalRequest {
    ApprovalRequest {
        id,
        request_id: id + 16,
        task_id: None,
        resource_type: ResourceType::Secret,
        resource_id: format!("key{}", id),
        reason: "why".to_string(),
        status: status.to_string(),
        scope: ApprovalScope::Once,
        created_at: Timestamp { secs: 1_700_000_000, nanos: 12 },
        expires_at: at(1_700_000_900),
    }
}

#[test]
fn pending_list_shows_waiting_requests() {
    let requests = vec![approval(1, "Approved"), approval(2, "Pending"), approval(3, "Denied"), approval(4, "Pending")];
    let listed = list_pending(&requests);
    assert_eq!(listed.len(), 2);
    assert_eq!(listed[0].approval_id, "00000000-0000-0000-0000-000000000002");
    assert_eq!(listed[0].request_id, "00000000-0000-0000-0000-000000000012");
    assert_eq!(listed[0].resource_type, "Secret");
    assert_eq!(listed[0].resource_id, "key2");
    assert_eq!(listed[0].created_seconds, 1_700_000_000);
    assert_eq!(listed[0].created_nanos, 12);
    assert_eq!(listed[1].resource_id, "key4");
}

#[test]
fn telegram_backend_keeps_its_bot() {
    let b = TelegramApprovalBackend::new("123:abc".to_string(), -77);
    assert_eq!(b.bot_token(), "123:abc");
    assert_eq!(b.chat(), -77);
}
