use openleash::callbacks::{CallbackAction, CallbackEvent, CallbackSession};
use openleash::models::{ApprovalRequest, ApprovalScope, ResourceType, Timestamp};

const ID_TEXT: &str = "67e55044-10b1-426f-9247-bb680e5fe0c8";
const ID: u128 = 0x67e5504410b1426f9247bb680e5fe0c8;

fn record(rt: ResourceType, resource: &str) -> ApprovalRequest {
    ApprovalRequest {
        id: ID,
        request_id: 1,
        task_id: None,
        resource_type: rt,
        resource_id: resource.to_string(),
        reason: "r".to_string(),
        status: "Approved".to_string(),
        scope: ApprovalScope::Once,
        created_at: Timestamp { secs: 0, nanos: 0 },
        expires_at: Timestamp { secs: 900, nanos: 0 },
    }
}

fn text(a: &CallbackAction) -> String {
    match a {
        CallbackAction::Answer(m) | CallbackAction::EditMessage(m) | CallbackAction::Notify(m) => m.clone(),
        other => panic!("unexpected {:?}", other),
    }
}

#[test]
fn approved_unlock_press_unlocks_and_answers() {
    let s = CallbackSession::new(Some(format!("approve:{}", ID_TEXT)), true);
    let (s, a) = s.step(CallbackEvent::Begin);
    match &a {
        CallbackAction::UpdateStatus(id, st) => {
            assert_eq!(*id, ID);
            assert_eq!(st, "Approved");
        }
        other => panic!("unexpected {:?}", other),
    }
    let (s, a) = s.step(CallbackEvent::Updated(Ok(())));
    assert!(matches!(a, CallbackAction::LookupApproval(id) if id == ID));
    let (s, a) = s.step(CallbackEvent::RecordFound(Ok(Some(record(ResourceType::System, "keychain-unlock")))));
    assert!(matches!(a, CallbackAction::Unlock));
    let (s, a) = s.step(CallbackEvent::Unlocked(Err("bad password".to_string())));
    assert_eq!(text(&a), "\u{274C} Approved, but unlock failed: bad password");
    let (s, a) = s.step(CallbackEvent::Sent);
    assert_eq!(text(&a), "Request Approved");
    let (s, a) = s.step(CallbackEvent::Sent);
    assert_eq!(text(&a), "\u{2705} Request Approved");
    let (s, a) = s.step(CallbackEvent::Sent);
    assert!(matches!(a, CallbackAction::Done));
    assert!(s.is_finished());
}

#[test]
fn approved_package_press_does_not_unlock() {
    let s = CallbackSession::new(Some(format!("approve:{}", ID_TEXT)), false);
    let (s, _) = s.step(CallbackEvent::Begin);
    let (s, _) = s.step(CallbackEvent::Updated(Ok(())));
    let (s, a) = s.step(CallbackEvent::RecordFound(Ok(Some(record(ResourceType::Package, "keychain-unlock")))));
    assert_eq!(text(&a), "Request Approved");
    let (s, a) = s.step(CallbackEvent::Sent);
    assert!(matches!(a, CallbackAction::Done));
    assert!(s.is_finished());
}

#[test]
fn denial_press_is_recorded_and_answered() {
    let s = CallbackSession::new(Some(format!("deny:{}", ID_TEXT)), true);
    let (s, a) = s.step(CallbackEvent::Begin);
    assert!(matches!(&a, CallbackAction::UpdateStatus(id, st) if *id == ID && st == "Denied"));
    let (s, a) = s.step(CallbackEvent::Updated(Ok(())));
    assert_eq!(text(&a), "Request Denied");
    let (_, a) = s.step(CallbackEvent::Sent);
    assert_eq!(text(&a), "\u{2705} Request Denied");
}

#[test]
fn store_error_is_answered() {
    let s = CallbackSession::new(Some(format!("deny:{}", ID_TEXT)), true);
    let (s, _) = s.step(CallbackEvent::Begin);
    let (s, a) = s.step(CallbackEvent::Updated(Err("locked".to_string())));
    assert_eq!(text(&a), "Error updating status");
    let (s, a) = s.step(CallbackEvent::Sent);
    assert!(matches!(a, CallbackAction::Done));
    assert!(s.is_finished());
}

#[test]
fn malformed_presses_are_ignored() {
    for data in [None, Some("approve".to_string()), Some(format!("allow:{}", ID_TEXT)), Some("approve:xyz".to_string()), Some(format!("approve:{}:x", ID_TEXT))] {
        let (s, a) = CallbackSession::new(data, true).step(CallbackEvent::Begin);
        assert!(matches!(a, CallbackAction::Done));
        assert!(s.is_finished());
    }
}
