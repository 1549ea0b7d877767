use openleash::audit::{entries_without_hash, predecessor, sealed_event};
use openleash::daemon::{list_audit, query_bound};
use openleash::models::{AuditEvent, ResourceType, Timestamp};
use openleash::store::query_audit_log;
use sha2::{Digest, Sha256};

fn event(id: u128, secs: i64, resource_id: &str) -> AuditEvent {
    AuditEvent {
        id,
        timestamp: Timestamp { secs, nanos: 0 },
        event_type: "TEST".to_string(),
        actor: "me".to_string(),
        resource_type: ResourceType::Package,
        resource_id: resource_id.to_string(),
        action: "INSTALL".to_string(),
        status: "SUCCESS".to_string(),
        metadata: Vec::new(),
        integrity_hash: String::new(),
    }
}

#[test]
fn integrity_hash_covers_previous_hash_and_fields() {
    let e = event(0x0123456789abcdef0011223344556677, 0, "pkg1");
    let h = e.calculate_integrity_hash("START").unwrap();
    let mut hasher = Sha256::new();
    hasher.update(b"START");
    hasher.update(0x0123456789abcdef0011223344556677u128.to_be_bytes());
    hasher.update(b"1970-01-01T00:00:00+00:00");
    hasher.update(b"TEST");
    hasher.update(b"me");
    hasher.update(b"Package");
    hasher.update(b"pkg1");
    hasher.update(b"INSTALL");
    hasher.update(b"SUCCESS");
    assert_eq!(h, hex::encode(hasher.finalize()));
    assert_eq!(h.len(), 64);
    assert_ne!(h, e.calculate_integrity_hash("other").unwrap());
}

#[test]
fn unrepresentable_timestamp_has_no_hash() {
    let e = event(1, i64::MAX, "pkg1");
    assert!(e.calculate_integrity_hash("START").is_none());
}

#[test]
fn audit_chain_links_each_event_to_the_last() {
    assert_eq!(predecessor(None), "START");
    let e1 = sealed_event(1, Timestamp { secs: 100, nanos: 0 }, "TEST", "me", ResourceType::Package, "pkg1", "INSTALL", "SUCCESS", Vec::new(), None).unwrap();
    assert_eq!(e1.integrity_hash, e1.calculate_integrity_hash("START").unwrap());
    let e2 = sealed_event(2, Timestamp { secs: 200, nanos: 0 }, "TEST", "me", ResourceType::Package, "pkg2", "INSTALL", "SUCCESS", Vec::new(), Some(e1.integrity_hash.clone())).unwrap();
    assert_eq!(e2.integrity_hash, e2.calculate_integrity_hash(&e1.integrity_hash).unwrap());
    assert!(entries_without_hash(&vec![e1.integrity_hash.clone(), e2.integrity_hash.clone()]).is_empty());
}

#[test]
fn structural_check_names_entries_without_hash() {
    let hashes = vec!["a".to_string(), String::new(), "b".to_string(), String::new()];
    assert_eq!(entries_without_hash(&hashes), vec![1, 3]);
}

#[test]
fn audit_query_returns_latest_first_within_limit() {
    let events = vec![event(1, 10, "a"), event(2, 30, "b"), event(3, 20, "c"), event(4, 40, "d")];
    assert_eq!(query_audit_log(&events, None, None, 10), vec![3, 1, 2, 0]);
    assert_eq!(query_audit_log(&events, None, None, 2), vec![3, 1]);
    let start = Some(Timestamp { secs: 20, nanos: 0 });
    let end = Some(Timestamp { secs: 30, nanos: 0 });
    assert_eq!(query_audit_log(&events, start, end, 10), vec![1, 2]);
    assert!(query_audit_log(&events, None, None, 0).is_empty());
    let listed = list_audit(&events, &vec![3]);
    assert_eq!(listed[0].resource_id, "d");
    assert_eq!(listed[0].id, "00000000-0000-0000-0000-000000000004");
}

#[test]
fn audit_log_query_scenario() {
    let mut e = event(7, 1_700_000_000, "test-pkg");
    e.integrity_hash = "dummyhash".to_string();
    let events = vec![e];
    let found = query_audit_log(&events, None, None, 10);
    let entries = list_audit(&events, &found);
    assert_eq!(entries.len(), 1);
    assert_eq!(entries[0].resource_id, "test-pkg");
    assert_eq!(entries[0].integrity_hash, "dummyhash");
}

#[test]
fn query_bounds_follow_chrono() {
    assert_eq!(query_bound(5, 7), Some(Timestamp { secs: 5, nanos: 7 }));
    assert_eq!(query_bound(5, -1), None);
    assert_eq!(query_bound(i64::MAX, 0), None);
}

#[test]
fn representable_instants_match_chrono_at_the_edges() {
    let lo: i64 = -8_334_601_228_800;
    let hi: i64 = 8_210_266_876_799;
    let cases: Vec<(i64, i32)> = vec![
        (lo, 0), (lo - 1, 0), (hi, 0), (hi + 1, 0), (hi, 999_999_999), (hi, 1_500_000_000),
        (59, 1_999_999_999), (59, 2_000_000_000), (58, 1_000_000_000), (-1, 1_000_000_000),
        (-61, 1_000_000_000), (0, -1), (i64::MAX, 0), (i64::MIN, 0), (1_700_000_000, 5),
    ];
    for (secs, nanos) in cases {
        let ours = query_bound(secs, nanos).is_some();
        let chrono_says = chrono::DateTime::<chrono::Utc>::from_timestamp(secs, nanos as u32).is_some();
        assert_eq!(ours, chrono_says, "at {} {}", secs, nanos);
    }
}

#[test]
fn appended_event_is_found_by_a_later_query() {
    let mut events = vec![event(1, 50, "a"), event(2, 60, "b")];
    events.push(event(3, 10, "late-but-old"));
    let found = query_audit_log(&events, None, None, 10);
    assert!(found.contains(&2));
    assert_eq!(found.len(), 3);
    let start = Some(Timestamp { secs: 0, nanos: 0 });
    let end = Some(Timestamp { secs: 20, nanos: 0 });
    assert_eq!(query_audit_log(&events, start, end, 10), vec![2]);
}
