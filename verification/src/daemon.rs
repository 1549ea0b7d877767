//! The daemon's task, approval-listing and audit services, as functions of
//! what the store holds.
use vstd::prelude::*;
use crate::audit::{rfc3339, utc_representable};
use crate::codec::{override_scope, scope_of_lower};
use crate::encoding::{uuid_from_text, uuid_hyphenated, uuid_parse, uuid_to_text};
use crate::text::lowercase_text;
use crate::flow::{check_task_active, task_ended_message, task_missing_message, Refusal, RefusalView};
use crate::models::{
    resource_type_label, ApprovalRequest, ApprovalScope, AuditEvent, Policy, ResourceType, Task,
    TaskStatus, Timestamp,
};
use crate::store::is_pending;
use crate::text::{join2, same_text};
use crate::venv::{bin_dir_of, VenvManager};

verus! {

/// The shortest lifetime of a task, in seconds.
pub const MIN_TASK_TTL: u64 = 60;

/// The longest lifetime of a task, in seconds.
pub const MAX_TASK_TTL: u64 = 86400;

/// The lifetime a task is given for a requested one: the request, held
/// between one minute and one day.
pub open spec fn clamped_ttl(ttl: u64) -> u64 {
    if ttl < 60 {
        60
    } else if ttl > 86400 {
        86400
    } else {
        ttl
    }
}

/// The lifetime a task is given for the requested `ttl_seconds`.
pub fn task_ttl(ttl_seconds: u64) -> (r: u64)
    ensures
        r == clamped_ttl(ttl_seconds),
        MIN_TASK_TTL <= r <= MAX_TASK_TTL,
{
    if ttl_seconds < MIN_TASK_TTL {
        MIN_TASK_TTL
    } else if ttl_seconds > MAX_TASK_TTL {
        MAX_TASK_TTL
    } else {
        ttl_seconds
    }
}

/// The scope directory of a task: `<base>/task-<id>`.
pub open spec fn task_scope(base: Seq<char>, task_id: u128) -> Seq<char> {
    base + "/task-"@ + uuid_hyphenated(task_id)
}

/// The scope directory of task `task_id` under `base`.
pub fn task_scope_path(base: &str, task_id: u128) -> (r: String)
    ensures
        r@ == task_scope(base@, task_id),
{
    let mut r = join2(base, "/task-");
    let id = uuid_to_text(task_id);
    r.append(id.as_str());
    r
}

/// A new active task started at `now` under `base`, living for the clamped
/// `ttl_seconds`; `None` where its expiry leaves the range of `i64` seconds.
pub fn new_task(id: u128, name: String, base: &str, ttl_seconds: u64, now: Timestamp) -> (r: Option<Task>)
    ensures
        r is Some <==> now.secs + clamped_ttl(ttl_seconds) <= i64::MAX,
        r matches Some(t) ==> {
            &&& t.id == id
            &&& t.name == name
            &&& t.scope_path@ == task_scope(base@, id)
            &&& t.status == TaskStatus::Active
            &&& t.created_at == now
            &&& t.expires_at.secs == now.secs + clamped_ttl(ttl_seconds)
            &&& t.expires_at.nanos == now.nanos
        },
{
    let ttl = task_ttl(ttl_seconds);
    match now.plus_seconds(ttl as i64) {
        Some(expires_at) => Some(
            Task {
                id,
                name,
                scope_path: task_scope_path(base, id),
                status: TaskStatus::Active,
                created_at: now,
                expires_at,
            },
        ),
        None => None,
    }
}

/// The environment of a task as found in the store (`None` where none was):
/// its executables directory and its scope while it is active, the refusal
/// of a missing or ended task otherwise.
pub open spec fn environment_of(task: Option<Task>) -> Result<(Seq<char>, Seq<char>), RefusalView> {
    match task {
        None => Err(RefusalView::FailedPrecondition(task_missing_message())),
        Some(t) => if t.status == TaskStatus::Active {
            Ok((bin_dir_of(t.scope_path@), t.scope_path@))
        } else {
            Err(RefusalView::FailedPrecondition(task_ended_message()))
        },
    }
}

/// The environment of a task, for a task id that named `task` in the store:
/// the task's executables directory and its scope, while the task is active.
pub fn task_environment(task: Option<&Task>) -> (r: Result<(String, String), Refusal>)
    ensures
        match r {
            Ok(p) => environment_of(
                match task {
                    Some(t) => Some(*t),
                    None => None,
                },
            ) == Ok::<(Seq<char>, Seq<char>), RefusalView>((p.0@, p.1@)),
            Err(e) => environment_of(
                match task {
                    Some(t) => Some(*t),
                    None => None,
                },
            ) == Err::<(Seq<char>, Seq<char>), RefusalView>(e@),
        },
        task is None ==> (r matches Err(e) && e@ == RefusalView::FailedPrecondition(task_missing_message())),
        task matches Some(t) ==> (t.status != TaskStatus::Active ==> (r matches Err(e) && e@
            == RefusalView::FailedPrecondition(task_ended_message()))),
        task matches Some(t) ==> (t.status == TaskStatus::Active ==> (r matches Ok(p) && p.0@ == bin_dir_of(
            t.scope_path@,
        ) && p.1@ == t.scope_path@)),
{
    match check_task_active(task) {
        Err(e) => Err(e),
        Ok(()) => {
            let t = task.unwrap();
            let venv = VenvManager::new(t.scope_path.as_str());
            Ok((venv.bin_dir(), t.scope_path.clone()))
        },
    }
}

/// The task id a request names, or the refusal "Invalid task_id" where the
/// text is not a UUID.
pub fn parse_task_id(text: &str) -> (r: Result<u128, Refusal>)
    ensures
        match uuid_from_text(text@) {
            Some(x) => r matches Ok(y) && y == x,
            None => r matches Err(e) && e@ == RefusalView::InvalidArgument("Invalid task_id"@),
        },
{
    match uuid_parse(text) {
        Some(x) => Ok(x),
        None => Err(Refusal::InvalidArgument(String::from_str("Invalid task_id"))),
    }
}

/// What an approver's decision asks of the store: the approval to update,
/// the status to record ("Approved" or "Denied"), and, for an approval, the
/// scope the approver asked for instead of the request's (one of "once",
/// "task", "permanent" in any case); the refusal "Invalid approval_id"
/// where the id is not a UUID.
pub fn approval_update(approval_id: &str, approve: bool, scope: Option<&str>) -> (r: Result<
    (u128, String, Option<ApprovalScope>),
    Refusal,
>)
    ensures
        match uuid_from_text(approval_id@) {
            Some(x) => r matches Ok(u) && u.0 == x && (if approve {
                u.1@ == "Approved"@ && u.2 == match scope {
                    Some(s) => scope_of_lower(lowercase_text(s@)),
                    None => None,
                }
            } else {
                u.1@ == "Denied"@ && u.2 is None
            }),
            None => r matches Err(e) && e@ == RefusalView::InvalidArgument("Invalid approval_id"@),
        },
{
    match uuid_parse(approval_id) {
        None => Err(Refusal::InvalidArgument(String::from_str("Invalid approval_id"))),
        Some(id) => if approve {
            Ok((id, String::from_str("Approved"), override_scope(scope)))
        } else {
            Ok((id, String::from_str("Denied"), None))
        },
    }
}

/// A pending approval as the approval service lists it.
#[derive(Debug)]
pub struct PendingEntry {
    pub approval_id: String,
    pub request_id: String,
    pub resource_type: String,
    pub resource_id: String,
    pub reason: String,
    pub created_seconds: i64,
    pub created_nanos: i32,
}

/// An audit event as the audit service lists it.
#[derive(Debug)]
pub struct AuditEntry {
    pub id: String,
    pub seconds: i64,
    pub nanos: i32,
    pub event_type: String,
    pub actor: String,
    pub resource_type: String,
    pub resource_id: String,
    pub action: String,
    pub status: String,
    pub integrity_hash: String,
}

/// The listing of one pending approval.
pub open spec fn lists_request(e: PendingEntry, q: ApprovalRequest) -> bool {
    &&& e.approval_id@ == uuid_hyphenated(q.id)
    &&& e.request_id@ == uuid_hyphenated(q.request_id)
    &&& e.resource_type@ == resource_type_label(q.resource_type)
    &&& e.resource_id@ == q.resource_id@
    &&& e.reason@ == q.reason@
    &&& e.created_seconds == q.created_at.secs
    &&& e.created_nanos == q.created_at.nanos as i32
}

/// The approvals that wait for a human, listed in stored order; a request's
/// creation time is given in seconds and nanoseconds (as the service's
/// 32-bit field holds them).
pub fn list_pending(requests: &Vec<ApprovalRequest>) -> (r: Vec<PendingEntry>)
    ensures
        r@.len() == requests@.filter(|q: ApprovalRequest| is_pending(q)).len(),
        forall|i: int| 0 <= i < r@.len() ==> lists_request(
            #[trigger] r@[i],
            requests@.filter(|q: ApprovalRequest| is_pending(q))[i],
        ),
{
    let pending = crate::store::pending_approvals(requests);
    let ghost p = |q: ApprovalRequest| is_pending(q);
    let mut r: Vec<PendingEntry> = Vec::new();
    let n = pending.len();
    let mut i: usize = 0;
    while i < n
        invariant
            n == pending@.len(),
            pending@ == requests@.filter(p),
            p == (|q: ApprovalRequest| is_pending(q)),
            i <= n,
            r@.len() == i,
            forall|j: int| 0 <= j < i ==> lists_request(#[trigger] r@[j], pending@[j]),
        decreases n - i,
    {
        let q = &pending[i];
        r.push(
            PendingEntry {
                approval_id: uuid_to_text(q.id),
                request_id: uuid_to_text(q.request_id),
                resource_type: q.resource_type.label(),
                resource_id: q.resource_id.clone(),
                reason: q.reason.clone(),
                created_seconds: q.created_at.secs,
                created_nanos: q.created_at.nanos as i32,
            },
        );
        i = i + 1;
    }
    r
}

/// The listing of one audit event.
pub open spec fn lists_event(a: AuditEntry, e: AuditEvent) -> bool {
    &&& a.id@ == uuid_hyphenated(e.id)
    &&& a.seconds == e.timestamp.secs
    &&& a.nanos == e.timestamp.nanos as i32
    &&& a.event_type@ == e.event_type@
    &&& a.actor@ == e.actor@
    &&& a.resource_type@ == resource_type_label(e.resource_type)
    &&& a.resource_id@ == e.resource_id@
    &&& a.action@ == e.action@
    &&& a.status@ == e.status@
    &&& a.integrity_hash@ == e.integrity_hash@
}

/// The listing of the audit events at the given positions, in that order.
pub fn list_audit(events: &Vec<AuditEvent>, positions: &Vec<usize>) -> (r: Vec<AuditEntry>)
    requires
        forall|i: int| 0 <= i < positions@.len() ==> (#[trigger] positions@[i] as int) < events@.len(),
    ensures
        r@.len() == positions@.len(),
        forall|i: int| 0 <= i < r@.len() ==> lists_event(#[trigger] r@[i], events@[positions@[i] as int]),
{
    let mut r: Vec<AuditEntry> = Vec::new();
    let n = positions.len();
    let mut i: usize = 0;
    while i < n
        invariant
            n == positions@.len(),
            forall|k: int| 0 <= k < positions@.len() ==> (#[trigger] positions@[k] as int) < events@.len(),
            i <= n,
            r@.len() == i,
            forall|j: int| 0 <= j < i ==> lists_event(#[trigger] r@[j], events@[positions@[j] as int]),
        decreases n - i,
    {
        let e = &events[positions[i]];
        r.push(
            AuditEntry {
                id: uuid_to_text(e.id),
                seconds: e.timestamp.secs,
                nanos: e.timestamp.nanos as i32,
                event_type: e.event_type.clone(),
                actor: e.actor.clone(),
                resource_type: e.resource_type.label(),
                resource_id: e.resource_id.clone(),
                action: e.action.clone(),
                status: e.status.clone(),
                integrity_hash: e.integrity_hash.clone(),
            },
        );
        i = i + 1;
    }
    r
}

/// A bound of an audit query given as seconds and (signed) nanoseconds: the
/// instant, where the nanoseconds, read as unsigned, make one that chrono
/// represents; no bound otherwise.
pub fn query_bound(seconds: i64, nanos: i32) -> (r: Option<Timestamp>)
    ensures
        r is Some <==> utc_representable(seconds, nanos as u32),
        r matches Some(t) ==> t.secs == seconds && t.nanos == nanos as u32,
{
    let ts = Timestamp { secs: seconds, nanos: nanos as u32 };
    if rfc3339(ts).is_some() {
        Some(ts)
    } else {
        None
    }
}

/// The policies the daemon uses where no policy file is found: every package
/// and every secret is allowed automatically.
pub fn get_default_policies() -> (r: Vec<Policy>)
    ensures
        r@.len() == 2,
        r@[0].id@ == "default-packages"@ && r@[0].resource_type == ResourceType::Package && r@[0].priority == 0
            && r@[0].allowed_patterns@.len() == 1 && r@[0].allowed_patterns@[0]@ == ".*"@
            && r@[0].max_ttl_seconds == 86400 && r@[0].auto_approve && r@[0].default_scope == ApprovalScope::Once,
        r@[1].id@ == "default-secrets"@ && r@[1].resource_type == ResourceType::Secret && r@[1].priority == 0
            && r@[1].allowed_patterns@.len() == 1 && r@[1].allowed_patterns@[0]@ == ".*"@
            && r@[1].max_ttl_seconds == 0 && r@[1].auto_approve && r@[1].default_scope == ApprovalScope::Once,
        r@[0].name@ == "Default Packages"@ && (r@[0].description matches Some(d) && d@ == "Allow all packages"@),
        r@[1].name@ == "Default Secrets"@ && (r@[1].description matches Some(d) && d@ == "Allow all secrets"@),
{
    let mut r: Vec<Policy> = Vec::new();
    let mut p0: Vec<String> = Vec::new();
    p0.push(String::from_str(".*"));
    r.push(
        Policy {
            id: String::from_str("default-packages"),
            name: String::from_str("Default Packages"),
            description: Some(String::from_str("Allow all packages")),
            resource_type: ResourceType::Package,
            priority: 0,
            allowed_patterns: p0,
            max_ttl_seconds: 86400,
            auto_approve: true,
            default_scope: ApprovalScope::Once,
        },
    );
    let mut p1: Vec<String> = Vec::new();
    p1.push(String::from_str(".*"));
    r.push(
        Policy {
            id: String::from_str("default-secrets"),
            name: String::from_str("Default Secrets"),
            description: Some(String::from_str("Allow all secrets")),
            resource_type: ResourceType::Secret,
            priority: 0,
            allowed_patterns: p1,
            max_ttl_seconds: 0,
            auto_approve: true,
            default_scope: ApprovalScope::Once,
        },
    );
    r
}

} // verus!
