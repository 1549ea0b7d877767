use openleash::error::LeashError;
use openleash::flow::{approval_step, new_approval_request, ApprovalHandling, ApprovalStep};
use openleash::models::{ApprovalRequest, ApprovalScope, ApprovedResource, Decision, ResourceType, Timestamp};
use openleash::store::{
    check_approval, find_by_id, find_by_request_id, grant_for, pending_approvals, record_decision,
    revoke_task_grants,
};

fn now() -> Timestamp {
    Timestamp { secs: 1_700_000_000, nanos: 5 }
}

fn request(id: u128, request_id: u128, task_id: Option<u128>, rt: ResourceType, rid: &str, scope: ApprovalScope) -> ApprovalRequest {
    new_approval_request(id, request_id, task_id, rt, rid.to_string(), "need it".to_string(), scope, now()).unwrap()
}

fn approve(req: &mut ApprovalRequest, grants: &mut Vec<ApprovedResource>, scope: Option<ApprovalScope>, grant_id: u128) {
    req.status = "Approved".to_string();
    if let Some(g) = grant_for(req, "Approved", scope, grant_id) {
        grants.push(g);
    }
}

#[test]
fn new_approval_request_waits_fifteen_minutes() {
    let q = request(1, 2, None, ResourceType::Secret, "key", ApprovalScope::Once);
    assert_eq!(q.status, "Pending");
    assert_eq!(q.expires_at, Timestamp { secs: 1_700_000_900, nanos: 5 });
    let late = Timestamp { secs: i64::MAX - 10, nanos: 0 };
    assert!(new_approval_request(1, 2, None, ResourceType::Secret, "k".to_string(), "r".to_string(), ApprovalScope::Once, late).is_none());
}

#[test]
fn approval_persistence_scenario() {
    let mut requests = vec![request(10, 20, None, ResourceType::Secret, "key", ApprovalScope::Once)];
    let found = find_by_request_id(&requests, 20).unwrap();
    assert_eq!(requests[found].id, 10);
    assert_eq!(find_by_request_id(&requests, 21), None);
    let mut grants = Vec::new();
    let i = find_by_id(&requests, 10).unwrap();
    approve(&mut requests[i], &mut grants, None, 99);
    assert!(pending_approvals(&requests).is_empty());
    assert!(grants.is_empty());
}

#[test]
fn persistent_approval_check_scenario() {
    let mut req = request(1, 2, None, ResourceType::Package, "numpy", ApprovalScope::Permanent);
    let mut grants: Vec<ApprovedResource> = Vec::new();
    assert!(!check_approval(&grants, ResourceType::Package, "numpy", None, now()));
    approve(&mut req, &mut grants, None, 3);
    assert!(check_approval(&grants, ResourceType::Package, "numpy", None, now()));
    assert!(check_approval(&grants, ResourceType::Package, "numpy", Some(77), now()));
    assert!(!check_approval(&grants, ResourceType::Secret, "numpy", None, now()));
    assert!(!check_approval(&grants, ResourceType::Package, "pandas", None, now()));
    let after = Timestamp { secs: 1_700_000_900, nanos: 5 };
    assert!(!check_approval(&grants, ResourceType::Package, "numpy", None, after));
}

#[test]
fn once_approval_grants_nothing_beyond_its_request() {
    let mut req = request(1, 2, None, ResourceType::Secret, "test-secret", ApprovalScope::Permanent);
    let mut grants = Vec::new();
    approve(&mut req, &mut grants, Some(ApprovalScope::Once), 3);
    assert!(grants.is_empty());
    match approval_step(Decision::PendingApproval(ApprovalScope::Once), Some(&req)) {
        ApprovalStep::Settled(ApprovalHandling::Approved) => {}
        other => panic!("unexpected {:?}", other),
    }
    match approval_step(Decision::PendingApproval(ApprovalScope::Once), None) {
        ApprovalStep::RequestApproval(ApprovalScope::Once) => {}
        other => panic!("unexpected {:?}", other),
    }
}

#[test]
fn task_approval_reaches_only_its_task() {
    let mut req = request(1, 2, Some(500), ResourceType::Secret, "test-secret", ApprovalScope::Once);
    let mut grants = Vec::new();
    approve(&mut req, &mut grants, Some(ApprovalScope::Task), 3);
    assert_eq!(grants.len(), 1);
    assert!(check_approval(&grants, ResourceType::Secret, "test-secret", Some(500), now()));
    assert!(!check_approval(&grants, ResourceType::Secret, "test-secret", Some(501), now()));
    assert!(!check_approval(&grants, ResourceType::Secret, "test-secret", None, now()));
}

#[test]
fn task_cleanup_revokes_approvals() {
    let mut a = request(1, 2, Some(500), ResourceType::Command, "ls", ApprovalScope::Task);
    let mut b = request(3, 4, Some(600), ResourceType::Command, "ls", ApprovalScope::Permanent);
    let mut grants = Vec::new();
    approve(&mut a, &mut grants, None, 10);
    approve(&mut b, &mut grants, None, 11);
    let kept = revoke_task_grants(grants, 500);
    assert_eq!(kept.len(), 1);
    assert_eq!(kept[0].id, 11);
    assert!(check_approval(&kept, ResourceType::Command, "ls", Some(500), now()));
    let kept = revoke_task_grants(kept, 600);
    assert!(!check_approval(&kept, ResourceType::Command, "ls", Some(500), now()));
}

#[test]
fn denied_approval_is_refused_with_reason() {
    let mut req = request(1, 2, None, ResourceType::Secret, "test-secret", ApprovalScope::Once);
    req.status = "Denied".to_string();
    let mut grants = Vec::new();
    if let Some(g) = grant_for(&req, "Denied", None, 9) {
        grants.push(g);
    }
    assert!(grants.is_empty());
    match approval_step(Decision::PendingApproval(ApprovalScope::Once), Some(&req)) {
        ApprovalStep::Settled(ApprovalHandling::Denied(m)) => assert_eq!(m, "Request was denied by human approver"),
        other => panic!("unexpected {:?}", other),
    }
    req.status = "Pending".to_string();
    match approval_step(Decision::PendingApproval(ApprovalScope::Once), Some(&req)) {
        ApprovalStep::Settled(ApprovalHandling::Pending) => {}
        other => panic!("unexpected {:?}", other),
    }
}

#[test]
fn policy_decisions_settle_without_a_human() {
    match approval_step(Decision::Allow, None) {
        ApprovalStep::Settled(ApprovalHandling::Approved) => {}
        other => panic!("unexpected {:?}", other),
    }
    match approval_step(Decision::Deny("No matching policy found".to_string()), None) {
        ApprovalStep::Settled(ApprovalHandling::Denied(m)) => assert_eq!(m, "No matching policy found"),
        other => panic!("unexpected {:?}", other),
    }
}

#[test]
fn pending_listing_keeps_stored_order() {
    let mut a = request(1, 2, None, ResourceType::Secret, "a", ApprovalScope::Once);
    let b = request(3, 4, None, ResourceType::Secret, "b", ApprovalScope::Once);
    let c = request(5, 6, None, ResourceType::Package, "c", ApprovalScope::Once);
    a.status = "Approved".to_string();
    let pending = pending_approvals(&vec![a, b, c]);
    assert_eq!(pending.len(), 2);
    assert_eq!(pending[0].resource_id, "b");
    assert_eq!(pending[1].resource_id, "c");
}

#[test]
fn recording_a_decision_updates_status_and_grants() {
    let mut requests = vec![
        request(10, 20, Some(7), ResourceType::Secret, "key", ApprovalScope::Once),
        request(11, 21, None, ResourceType::Package, "six", ApprovalScope::Once),
    ];
    let mut grants = Vec::new();
    assert!(record_decision(&mut requests, &mut grants, 10, "Approved", Some(ApprovalScope::Task), 99).is_ok());
    assert_eq!(requests[0].status, "Approved");
    assert_eq!(requests[1].status, "Pending");
    assert_eq!(grants.len(), 1);
    assert_eq!(grants[0].id, 99);
    assert_eq!(grants[0].scope, ApprovalScope::Task);
    let later = Timestamp { secs: 1_700_000_100, nanos: 0 };
    assert!(check_approval(&grants, ResourceType::Secret, "key", Some(7), later));
    assert!(!check_approval(&grants, ResourceType::Secret, "key", Some(8), later));
    assert!(record_decision(&mut requests, &mut grants, 11, "Approved", None, 100).is_ok());
    assert_eq!(grants.len(), 1);
    assert!(record_decision(&mut requests, &mut grants, 11, "Denied", None, 101).is_ok());
    assert_eq!(requests[1].status, "Denied");
    match record_decision(&mut requests, &mut grants, 12, "Approved", None, 102) {
        Err(LeashError::NotFound(m)) => assert!(m.starts_with("Approval request not found during update: ")),
        other => panic!("unexpected {:?}", other),
    }
    assert!(record_decision(&mut requests, &mut grants, 12, "Denied", None, 103).is_ok());
    assert_eq!(grants.len(), 1);
}
