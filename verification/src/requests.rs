//! An agent's request to the daemon (install a package, read a secret, store
//! a secret) as a state machine: each step takes what the store, the keychain
//! or a backend answered and says what to do next, until the request is
//! answered or refused.
use vstd::prelude::*;
use crate::flow::{
    check_task_active, human_denial_reason, installation_failed, new_approval_request, new_lease, outcome_status, request_metadata,
    package_executed, package_manager_named, package_pending, pending_message, request_identity,
    secret_locked, secret_outcome, secret_pending, store_outcome, store_pending, task_ended_message,
    task_missing_message, unlock_denied_message, unlock_request, unlock_resource, unlock_step,
    unlock_waiting_message, PackageResponse, Refusal, RefusalView, SecretResponse, StoreResponse,
    UnlockStep,
};
use crate::audit::{integrity_hash, predecessor_hash, sealed_event, utc_representable};
use crate::encoding::{uuid_from_text, uuid_hyphenated};
use crate::models::{
    ApprovalRequest, ApprovalScope, AuditEvent, Decision, DecisionView, Lease, LeaseStatus, PackageManager,
    ResourceType, Task, TaskStatus, Timestamp,
};
use crate::policy::{decide, PolicyEngine};
use crate::store::{approved_status, denied_status, pending_status};
use crate::text::{join2, pairs_view, same_text};

verus! {

/// The three requests that an agent makes of the daemon.
#[derive(Debug, Clone, Copy, PartialEq, Eq, Structural)]
pub enum RequestKind {
    /// Install a package into a scope.
    Package,
    /// Read a secret from the keychain.
    Secret,
    /// Store a secret in the keychain.
    StoreSecret,
}

/// An agent's request as it arrives. `manager`, `scope_path` and
/// `ttl_seconds` belong to package requests, `value` to store requests.
#[derive(Debug)]
pub struct AgentRequest {
    pub kind: RequestKind,
    pub request_id: String,
    /// The package, or the secret's id.
    pub resource_id: String,
    pub reason: String,
    pub task_id: Option<String>,
    pub manager: String,
    pub scope_path: String,
    pub ttl_seconds: u64,
    pub value: String,
}

/// What a backend answered to the work of a request.
#[derive(Debug)]
pub enum Outcome {
    Installed(Result<(), String>),
    Fetched(Result<String, String>),
    Stored(Result<(), String>),
}

/// Where a request stands: what it waits for.
#[derive(Debug)]
pub enum Phase {
    Received,
    /// The task the request names.
    AwaitTask,
    /// Whether the keychain is locked.
    AwaitLock,
    /// The unlock approval recorded under this request id.
    AwaitUnlockRecord(u128),
    /// The keychain's unlock.
    AwaitUnlock,
    /// The recording of this new unlock request.
    AwaitUnlockFiled(ApprovalRequest),
    /// The notification of the approvers of a recorded unlock request.
    AwaitUnlockNotified,
    /// Whether a standing grant covers the request.
    AwaitGrant,
    /// The approval recorded under this request id, for a policy that asks
    /// for approval in this scope.
    AwaitApprovalRecord(u128, ApprovalScope),
    /// The recording of this new approval request.
    AwaitApprovalFiled(ApprovalRequest),
    /// The notification of the approvers of a recorded approval request.
    AwaitApprovalNotified,
    /// The audit of a refusal with this reason.
    AwaitDenialAudit(String),
    /// The backend's work.
    AwaitWork,
    /// The audit of the backend's outcome.
    AwaitOutcomeAudit(Outcome),
    /// The storing of the lease with this id.
    AwaitLease(u128),
    Finished,
}

/// What a step hands the store, the keychain and the backends.
#[derive(Debug)]
pub struct AuditRecord {
    pub event_type: String,
    pub actor: String,
    pub resource_type: ResourceType,
    pub resource_id: String,
    pub action: String,
    pub status: String,
    pub metadata: Vec<(String, String)>,
}

impl AuditRecord {
    /// The audit event this record describes, as event `id` written at `now`
    /// and sealed after the last recorded hash `last_hash` (see
    /// [`sealed_event`]); `None` exactly where `now` cannot be written in
    /// RFC 3339.
    pub fn seal(self, id: u128, now: Timestamp, last_hash: Option<String>) -> (r: Option<AuditEvent>)
        ensures
            r is Some <==> utc_representable(now.secs, now.nanos),
            r matches Some(e) ==> {
                &&& e.id == id
                &&& e.timestamp == now
                &&& e.event_type@ == self.event_type@
                &&& e.actor@ == self.actor@
                &&& e.resource_type == self.resource_type
                &&& e.resource_id@ == self.resource_id@
                &&& e.action@ == self.action@
                &&& e.status@ == self.status@
                &&& e.metadata@ == self.metadata@
                &&& e.integrity_hash@ == integrity_hash(
                    predecessor_hash(
                        match last_hash {
                            Some(h) => Some(h@),
                            None => None,
                        },
                    ),
                    e,
                )
            },
    {
        sealed_event(
            id,
            now,
            self.event_type.as_str(),
            self.actor.as_str(),
            self.resource_type,
            self.resource_id.as_str(),
            self.action.as_str(),
            self.status.as_str(),
            self.metadata,
            last_hash,
        )
    }
}

/// The answer to a request.
#[derive(Debug)]
pub enum Reply {
    Package(PackageResponse),
    Secret(SecretResponse),
    Store(StoreResponse),
}

/// What to do next.
#[derive(Debug)]
pub enum Action {
    /// Look up the task with this id.
    LookupTask(u128),
    /// Ask whether the keychain is locked.
    CheckLocked,
    /// Look up the approval recorded under this request id.
    LookupApproval(u128),
    /// Unlock the keychain.
    Unlock,
    /// Record this approval request.
    FileApproval(ApprovalRequest),
    /// Send this recorded approval request to every approval backend, once
    /// each, in order (a backend's failure is only logged).
    NotifyApprovers(ApprovalRequest),
    /// Ask whether an approval of lasting scope admits this resource within the given task.
    CheckGrant(ResourceType, String, Option<u128>),
    /// Install the package with this manager into this scope.
    Install(PackageManager, String, String),
    /// Read the secret with this id.
    FetchSecret(String),
    /// Store this value under this secret id.
    StoreSecret(String, String),
    /// Append this event to the audit log.
    Audit(AuditRecord),
    /// Record this lease.
    StoreLease(Lease),
    /// Answer the request.
    Reply(Reply),
    /// Refuse the request.
    Fail(Refusal),
}

/// What the last action brought back.
#[derive(Debug)]
pub enum Event {
    /// The request has just arrived.
    Begin,
    /// The task found for the id, `None` where there is none.
    TaskFound(Option<Task>),
    /// Whether the keychain said it is locked (an error counts as not locked).
    LockState(bool),
    /// The approval found for the request id, or the store's error.
    ApprovalFound(Result<Option<ApprovalRequest>, String>),
    Unlocked(Result<(), String>),
    /// The recording of an approval request, or the store's error.
    Filed(Result<(), String>),
    /// The approvers have been sent the request.
    Notified,
    /// Whether a standing grant covers the request (an error counts as no).
    Granted(bool),
    Installed(Result<(), String>),
    Fetched(Result<String, String>),
    Stored(Result<(), String>),
    /// The audit log's append, or its error.
    Audited(Result<(), String>),
    LeaseStored(Result<(), String>),
}

/// What the runner draws for a step: two new ids and the time.
#[derive(Debug, Clone, Copy)]
pub struct Draw {
    pub id: u128,
    pub other_id: u128,
    pub now: Timestamp,
}

/// A request on its way through the daemon.
#[derive(Debug)]
pub struct RequestSession {
    pub request: AgentRequest,
    /// The task the request names, once read.
    pub task: Option<u128>,
    /// The package manager, once read.
    pub manager: PackageManager,
    /// Where a package goes, once known.
    pub scope: String,
    pub phase: Phase,
}

/// The resource type a request is about.
pub open spec fn resource_type_of(kind: RequestKind) -> ResourceType {
    match kind {
        RequestKind::Package => ResourceType::Package,
        _ => ResourceType::Secret,
    }
}

/// The package manager a name stands for.
pub open spec fn manager_of(name: Seq<char>) -> Option<PackageManager> {
    if name == "pip"@ {
        Some(PackageManager::Pip)
    } else if name == "brew"@ {
        Some(PackageManager::Brew)
    } else if name == "npm"@ {
        Some(PackageManager::Npm)
    } else {
        None
    }
}

/// The task a request names: its id where the text is a UUID.
pub open spec fn task_of(task_id: Option<String>) -> Option<u128> {
    match task_id {
        Some(t) => uuid_from_text(t@),
        None => None,
    }
}

/// The request id a request goes by: its own where it is a UUID, else `fresh`.
pub open spec fn identity_of(request_id: Seq<char>, fresh: u128) -> u128 {
    match uuid_from_text(request_id) {
        Some(x) => x,
        None => fresh,
    }
}

/// The audit event type of a request.
pub open spec fn event_type_of(kind: RequestKind) -> Seq<char> {
    match kind {
        RequestKind::Package => "PACKAGE"@,
        _ => "SECRET"@,
    }
}

/// The audited action of a request.
pub open spec fn action_of(kind: RequestKind) -> Seq<char> {
    match kind {
        RequestKind::Package => "INSTALL"@,
        RequestKind::Secret => "ACCESS"@,
        RequestKind::StoreSecret => "STORE"@,
    }
}

/// The backend's outcome that an event brings.
pub open spec fn outcome_of(e: Event) -> Option<Outcome> {
    match e {
        Event::Installed(r) => Some(Outcome::Installed(r)),
        Event::Fetched(r) => Some(Outcome::Fetched(r)),
        Event::Stored(r) => Some(Outcome::Stored(r)),
        _ => None,
    }
}

/// The audited status of a backend's outcome.
pub open spec fn outcome_status_of(o: Outcome) -> Seq<char> {
    match o {
        Outcome::Installed(r) => if r is Ok {
            "SUCCESS"@
        } else {
            "FAILED"@
        },
        Outcome::Fetched(r) => if r is Ok {
            "GRANTED"@
        } else {
            "DENIED"@
        },
        Outcome::Stored(r) => if r is Ok {
            "SUCCESS"@
        } else {
            "FAILED"@
        },
    }
}

/// The annotations of an audited outcome: the manager (for packages) and the
/// reason, then the task id as the request wrote it, where it named one.
pub open spec fn outcome_metadata(req: AgentRequest) -> Seq<(Seq<char>, Seq<char>)> {
    let base = match req.kind {
        RequestKind::Package => seq![("manager"@, req.manager@), ("reason"@, req.reason@)],
        _ => seq![("reason"@, req.reason@)],
    };
    match req.task_id {
        Some(t) => base.push(("task_id"@, t@)),
        None => base,
    }
}

/// `rec` is the audit event of request `req` with this status and these
/// annotations.
pub open spec fn audit_of(
    rec: AuditRecord,
    req: AgentRequest,
    status: Seq<char>,
    metadata: Seq<(Seq<char>, Seq<char>)>,
) -> bool {
    &&& rec.event_type@ == event_type_of(req.kind)
    &&& rec.actor@ == "agent"@
    &&& rec.resource_type == resource_type_of(req.kind)
    &&& rec.resource_id@ == req.resource_id@
    &&& rec.action@ == action_of(req.kind)
    &&& rec.status@ == status
    &&& pairs_view(rec.metadata@) == metadata
}

/// The session and what it keeps from step to step.
pub open spec fn keeps(s: RequestSession, t: RequestSession) -> bool {
    &&& t.request == s.request
    &&& t.task == s.task
    &&& t.manager == s.manager
    &&& t.scope == s.scope
}

/// The request ends with this action.
pub open spec fn ends_with(t: RequestSession, a: Action, r: RefusalView) -> bool {
    &&& t.phase is Finished
    &&& a matches Action::Fail(e) && e@ == r
}

/// The request goes on to ask for a standing grant.
pub open spec fn to_grant_check(t: RequestSession, a: Action) -> bool {
    &&& t.phase is AwaitGrant
    &&& a matches Action::CheckGrant(rt, id, task) && rt == resource_type_of(t.request.kind) && id@
        == t.request.resource_id@ && task == t.task
}

/// The request is cleared: the backend does its work.
pub open spec fn to_work(t: RequestSession, a: Action) -> bool {
    &&& t.phase is AwaitWork
    &&& match t.request.kind {
        RequestKind::Package => a matches Action::Install(m, p, scope) && m == t.manager && p@
            == t.request.resource_id@ && scope@ == t.scope@,
        RequestKind::Secret => a matches Action::FetchSecret(id) && id@ == t.request.resource_id@,
        RequestKind::StoreSecret => a matches Action::StoreSecret(id, v) && id@ == t.request.resource_id@
            && v@ == t.request.value@,
    }
}

/// The request is refused for `reason`, which is audited first.
pub open spec fn to_denial_audit(t: RequestSession, a: Action, reason: Seq<char>) -> bool {
    &&& t.phase matches Phase::AwaitDenialAudit(m) && m@ == reason
    &&& a matches Action::Audit(rec) && audit_of(rec, t.request, "DENIED"@, seq![("reason"@, reason)])
}

/// The request is answered as waiting for a human.
pub open spec fn to_pending(t: RequestSession, a: Action) -> bool {
    &&& t.phase is Finished
    &&& match t.request.kind {
        RequestKind::Package => a matches Action::Reply(Reply::Package(r)) && r.request_id
            == t.request.request_id && r.status@ == "PENDING_APPROVAL"@ && r.lease_id@
            == Seq::<char>::empty() && r.error_message@ == pending_message(),
        RequestKind::Secret => a matches Action::Reply(Reply::Secret(r)) && r.request_id
            == t.request.request_id && r.status@ == "PENDING_APPROVAL"@ && r.value@ == Seq::<
            char,
        >::empty() && r.lease_id@ == Seq::<char>::empty() && r.error_message@ == pending_message(),
        RequestKind::StoreSecret => a matches Action::Reply(Reply::Store(r)) && r.request_id
            == t.request.request_id && !r.success && r.error_message@ == pending_message(),
    }
}

/// The secret request is answered "LOCKED" with this message.
pub open spec fn to_locked(t: RequestSession, a: Action, message: Seq<char>) -> bool {
    &&& t.phase is Finished
    &&& a matches Action::Reply(Reply::Secret(r)) && r.request_id == t.request.request_id && r.status@
        == "LOCKED"@ && r.value@ == Seq::<char>::empty() && r.lease_id@ == Seq::<char>::empty()
        && r.error_message@ == message
}

/// `q` is a new approval request drawn with `d`, for request id `rid`, task
/// `task`, about `rt` `resource` for `reason`, in `scope`.
pub open spec fn filed_request(
    q: ApprovalRequest,
    d: Draw,
    rid: u128,
    task: Option<u128>,
    rt: ResourceType,
    resource: Seq<char>,
    reason: Seq<char>,
    scope: ApprovalScope,
) -> bool {
    &&& q.id == d.id
    &&& q.request_id == rid
    &&& q.task_id == task
    &&& q.resource_type == rt
    &&& q.resource_id@ == resource
    &&& q.reason@ == reason
    &&& q.status@ == pending_status()
    &&& q.scope == scope
    &&& q.created_at == d.now
    &&& q.expires_at.secs == d.now.secs + 900 && q.expires_at.nanos == d.now.nanos
}

/// Where a decision about the request leads: an approved request is worked,
/// a denied one is audited and refused, a waiting one is answered so.
pub open spec fn after_decision(h: crate::flow::HandlingView, t: RequestSession, a: Action) -> bool {
    match h {
        crate::flow::HandlingView::Approved => to_work(t, a),
        crate::flow::HandlingView::Denied(m) => to_denial_audit(t, a, m),
        crate::flow::HandlingView::Pending => to_pending(t, a),
    }
}

/// The event a session waits for in its phase.
pub open spec fn accepts(s: RequestSession, e: Event) -> bool {
    match s.phase {
        Phase::Received => e is Begin,
        Phase::AwaitTask => e is TaskFound,
        Phase::AwaitLock => e is LockState,
        Phase::AwaitUnlockRecord(_) => e is ApprovalFound,
        Phase::AwaitUnlock => e is Unlocked,
        Phase::AwaitUnlockFiled(_) => e is Filed,
        Phase::AwaitUnlockNotified => e is Notified,
        Phase::AwaitGrant => e is Granted,
        Phase::AwaitApprovalRecord(_, _) => e is ApprovalFound,
        Phase::AwaitApprovalFiled(_) => e is Filed,
        Phase::AwaitApprovalNotified => e is Notified,
        Phase::AwaitDenialAudit(_) => e is Audited,
        Phase::AwaitWork => match s.request.kind {
            RequestKind::Package => e is Installed,
            RequestKind::Secret => e is Fetched,
            RequestKind::StoreSecret => e is Stored,
        },
        Phase::AwaitOutcomeAudit(_) => e is Audited,
        Phase::AwaitLease(_) => e is LeaseStored,
        Phase::Finished => false,
    }
}

/// Whether the time drawn for a step leaves room for what the step records:
/// an approval request's fifteen minutes, or a lease's lifetime.
pub open spec fn draw_fits(s: RequestSession, e: Event, d: Draw) -> bool {
    &&& ((e matches Event::ApprovalFound(Ok(None))) ==> d.now.secs + 900 <= i64::MAX)
    &&& (((s.phase matches Phase::AwaitOutcomeAudit(Outcome::Installed(Ok(())))) && (e matches Event::Audited(
        Ok(()),
    ))) ==> s.request.ttl_seconds <= i64::MAX && d.now.secs + s.request.ttl_seconds <= i64::MAX)
}

/// The first step of request `req`: a package request names a known
/// manager; a request that names a task has the task looked up; otherwise a
/// secret request asks whether the keychain is locked, and the others ask for
/// a standing grant (a package going to the requested scope).
pub open spec fn begins_with(req: AgentRequest, t: RequestSession, a: Action) -> bool {
    &&& t.request == req
    &&& t.task == task_of(req.task_id)
    &&& match req.kind {
        RequestKind::Package => match manager_of(req.manager@) {
            None => ends_with(t, a, RefusalView::InvalidArgument("Unsupported package manager"@)),
            Some(m) => {
                &&& t.manager == m
                &&& match t.task {
                    Some(id) => t.phase is AwaitTask && a == Action::LookupTask(id),
                    None => t.scope@ == req.scope_path@ && to_grant_check(t, a),
                }
            },
        },
        RequestKind::Secret => match t.task {
            Some(id) => t.phase is AwaitTask && a == Action::LookupTask(id),
            None => t.phase is AwaitLock && a is CheckLocked,
        },
        RequestKind::StoreSecret => match t.task {
            Some(id) => t.phase is AwaitTask && a == Action::LookupTask(id),
            None => to_grant_check(t, a),
        },
    }
}

/// One step of a request, from session `s` on event `e`, with the policies
/// `ps` and the draw `d`, to session `t` and action `a`.
pub open spec fn steps_to(
    s: RequestSession,
    ps: Seq<crate::models::Policy>,
    e: Event,
    d: Draw,
    t: RequestSession,
    a: Action,
) -> bool {
    let req = s.request;
    let rt = resource_type_of(req.kind);
    &&& t.request == req
    &&& match s.phase {
        Phase::Received => begins_with(req, t, a),
        Phase::AwaitTask => match e {
            Event::TaskFound(None) => ends_with(t, a, RefusalView::FailedPrecondition(task_missing_message())),
            Event::TaskFound(Some(task)) => if task.status != TaskStatus::Active {
                ends_with(t, a, RefusalView::FailedPrecondition(task_ended_message()))
            } else {
                &&& t.task == s.task
                &&& t.manager == s.manager
                &&& match req.kind {
                    RequestKind::Package => t.scope@ == task.scope_path@ && to_grant_check(t, a),
                    RequestKind::Secret => t.scope == s.scope && t.phase is AwaitLock && a is CheckLocked,
                    RequestKind::StoreSecret => t.scope == s.scope && to_grant_check(t, a),
                }
            },
            _ => true,
        },
        Phase::AwaitLock => match e {
            Event::LockState(true) => {
                let rid = identity_of(req.request_id@, d.id);
                keeps(s, t) && t.phase == Phase::AwaitUnlockRecord(rid) && a == Action::LookupApproval(rid)
            },
            Event::LockState(false) => keeps(s, t) && to_grant_check(t, a),
            _ => true,
        },
        Phase::AwaitUnlockRecord(rid) => match e {
            Event::ApprovalFound(Err(m)) => ends_with(t, a, RefusalView::Internal(m@)),
            Event::ApprovalFound(Ok(Some(f))) => if f.status@ == approved_status() {
                keeps(s, t) && t.phase is AwaitUnlock && a is Unlock
            } else if f.status@ == denied_status() {
                ends_with(t, a, RefusalView::PermissionDenied(unlock_denied_message()))
            } else {
                to_locked(t, a, unlock_waiting_message())
            },
            Event::ApprovalFound(Ok(None)) => {
                &&& keeps(s, t)
                &&& t.phase == Phase::AwaitUnlockFiled(a->FileApproval_0)
                &&& a matches Action::FileApproval(q) && filed_request(
                    q,
                    d,
                    rid,
                    None,
                    ResourceType::System,
                    unlock_resource(),
                    "Keychain is locked and must be unlocked to access secrets."@,
                    ApprovalScope::Once,
                )
            },
            _ => true,
        },
        Phase::AwaitUnlock => match e {
            Event::Unlocked(Err(m)) => ends_with(
                t,
                a,
                RefusalView::Internal("Human approved unlock, but unlock failed: "@ + m@),
            ),
            Event::Unlocked(Ok(())) => keeps(s, t) && to_grant_check(t, a),
            _ => true,
        },
        Phase::AwaitUnlockFiled(q) => match e {
            Event::Filed(Err(m)) => ends_with(t, a, RefusalView::Internal(m@)),
            Event::Filed(Ok(())) => keeps(s, t) && t.phase is AwaitUnlockNotified && a == Action::NotifyApprovers(q),
            _ => true,
        },
        Phase::AwaitUnlockNotified => to_locked(t, a, "Keychain is locked. Unlock request sent to Telegram."@),
        Phase::AwaitGrant => match e {
            Event::Granted(true) => keeps(s, t) && to_work(t, a),
            Event::Granted(false) => keeps(s, t) && match decide(ps, rt, req.resource_id@) {
                DecisionView::Allow => to_work(t, a),
                DecisionView::Deny(m) => to_denial_audit(t, a, m),
                DecisionView::PendingApproval(scope) => {
                    let rid = identity_of(req.request_id@, d.id);
                    t.phase == Phase::AwaitApprovalRecord(rid, scope) && a == Action::LookupApproval(rid)
                },
            },
            _ => true,
        },
        Phase::AwaitApprovalRecord(rid, scope) => match e {
            Event::ApprovalFound(Err(m)) => ends_with(t, a, RefusalView::Internal(m@)),
            Event::ApprovalFound(Ok(Some(f))) => keeps(s, t) && if f.status@ == approved_status() {
                after_decision(crate::flow::HandlingView::Approved, t, a)
            } else if f.status@ == denied_status() {
                after_decision(crate::flow::HandlingView::Denied(human_denial_reason()), t, a)
            } else {
                after_decision(crate::flow::HandlingView::Pending, t, a)
            },
            Event::ApprovalFound(Ok(None)) => {
                &&& keeps(s, t)
                &&& t.phase == Phase::AwaitApprovalFiled(a->FileApproval_0)
                &&& a matches Action::FileApproval(q) && filed_request(
                    q,
                    d,
                    rid,
                    s.task,
                    rt,
                    req.resource_id@,
                    req.reason@,
                    scope,
                )
            },
            _ => true,
        },
        Phase::AwaitApprovalFiled(q) => match e {
            Event::Filed(Err(m)) => ends_with(t, a, RefusalView::Internal(m@)),
            Event::Filed(Ok(())) => keeps(s, t) && t.phase is AwaitApprovalNotified && a == Action::NotifyApprovers(
                q,
            ),
            _ => true,
        },
        Phase::AwaitApprovalNotified => to_pending(t, a),
        Phase::AwaitDenialAudit(reason) => match e {
            Event::Audited(Err(m)) => ends_with(t, a, RefusalView::Internal("Audit failed: "@ + m@)),
            Event::Audited(Ok(())) => ends_with(t, a, RefusalView::PermissionDenied(reason@)),
            _ => true,
        },
        Phase::AwaitWork => match outcome_of(e) {
            Some(o) => {
                &&& keeps(s, t)
                &&& t.phase == Phase::AwaitOutcomeAudit(o)
                &&& a matches Action::Audit(rec) && audit_of(rec, req, outcome_status_of(o), outcome_metadata(req))
            },
            None => true,
        },
        Phase::AwaitOutcomeAudit(o) => match e {
            Event::Audited(Err(m)) => ends_with(t, a, RefusalView::Internal("Audit failed: "@ + m@)),
            Event::Audited(Ok(())) => match o {
                Outcome::Installed(Err(m)) => ends_with(t, a, RefusalView::Internal("Installation failed: "@ + m@)),
                Outcome::Installed(Ok(())) => {
                    &&& keeps(s, t)
                    &&& t.phase == Phase::AwaitLease(d.id)
                    &&& a matches Action::StoreLease(l) && l.id == d.id && l.request_id == identity_of(
                        req.request_id@,
                        d.other_id,
                    ) && l.task_id == s.task && l.status == LeaseStatus::Active && l.manager == s.manager
                        && l.package_name@ == req.resource_id@ && l.package_version@ == "unknown"@
                        && l.scope_path@ == s.scope@ && l.expires_at.secs == d.now.secs + req.ttl_seconds
                        && l.expires_at.nanos == d.now.nanos
                },
                Outcome::Fetched(r) => {
                    &&& t.phase is Finished
                    &&& a matches Action::Reply(Reply::Secret(resp)) && resp.request_id == req.request_id
                        && match r {
                        Ok(v) => resp.status@ == "GRANTED"@ && resp.value == v && resp.lease_id@
                            == uuid_hyphenated(d.id) && resp.error_message@ == Seq::<char>::empty(),
                        Err(m) => resp.status@ == "DENIED"@ && resp.value@ == Seq::<char>::empty()
                            && resp.lease_id@ == Seq::<char>::empty() && resp.error_message == m,
                    }
                },
                Outcome::Stored(r) => {
                    &&& t.phase is Finished
                    &&& a matches Action::Reply(Reply::Store(resp)) && resp.request_id == req.request_id
                        && resp.success == r is Ok && match r {
                        Ok(()) => resp.error_message@ == Seq::<char>::empty(),
                        Err(m) => resp.error_message == m,
                    }
                },
            },
            _ => true,
        },
        Phase::AwaitLease(lid) => match e {
            Event::LeaseStored(Err(m)) => ends_with(t, a, RefusalView::Internal("Failed to store lease: "@ + m@)),
            Event::LeaseStored(Ok(())) => {
                &&& t.phase is Finished
                &&& a matches Action::Reply(Reply::Package(resp)) && resp.request_id == req.request_id
                    && resp.status@ == "EXECUTED"@ && resp.lease_id@ == uuid_hyphenated(lid)
                    && resp.error_message@ == Seq::<char>::empty()
            },
            _ => true,
        },
        Phase::Finished => true,
    }
}

fn fail(request: AgentRequest, manager: PackageManager, scope: String, e: Refusal) -> (r: (RequestSession, Action))
    ensures
        r.0.request == request,
        r.0.phase is Finished,
        r.1 == Action::Fail(e),
{
    (RequestSession { request, task: None, manager, scope, phase: Phase::Finished }, Action::Fail(e))
}

fn event_type_text(kind: RequestKind) -> (r: String)
    ensures
        r@ == event_type_of(kind),
{
    match kind {
        RequestKind::Package => String::from_str("PACKAGE"),
        _ => String::from_str("SECRET"),
    }
}

fn action_text(kind: RequestKind) -> (r: String)
    ensures
        r@ == action_of(kind),
{
    match kind {
        RequestKind::Package => String::from_str("INSTALL"),
        RequestKind::Secret => String::from_str("ACCESS"),
        RequestKind::StoreSecret => String::from_str("STORE"),
    }
}

fn resource_type_for(kind: RequestKind) -> (r: ResourceType)
    ensures
        r == resource_type_of(kind),
{
    match kind {
        RequestKind::Package => ResourceType::Package,
        _ => ResourceType::Secret,
    }
}

fn audit_record(request: &AgentRequest, status: String, metadata: Vec<(String, String)>) -> (r: AuditRecord)
    ensures
        audit_of(r, *request, status@, pairs_view(metadata@)),
{
    AuditRecord {
        event_type: event_type_text(request.kind),
        actor: String::from_str("agent"),
        resource_type: resource_type_for(request.kind),
        resource_id: request.resource_id.clone(),
        action: action_text(request.kind),
        status,
        metadata,
    }
}

fn denial_record(request: &AgentRequest, reason: &String) -> (r: AuditRecord)
    ensures
        audit_of(r, *request, "DENIED"@, seq![("reason"@, reason@)]),
{
    let metadata = vec![(String::from_str("reason"), reason.clone())];
    assert(pairs_view(metadata@) =~= seq![("reason"@, reason@)]);
    audit_record(request, String::from_str("DENIED"), metadata)
}

fn outcome_record(request: &AgentRequest, o: &Outcome) -> (r: AuditRecord)
    ensures
        audit_of(r, *request, outcome_status_of(*o), outcome_metadata(*request)),
{
    let status = match o {
        Outcome::Installed(r) => outcome_status(r.is_ok(), "SUCCESS", "FAILED"),
        Outcome::Fetched(r) => outcome_status(r.is_ok(), "GRANTED", "DENIED"),
        Outcome::Stored(r) => outcome_status(r.is_ok(), "SUCCESS", "FAILED"),
    };
    let mut pairs: Vec<(String, String)> = Vec::new();
    if request.kind == RequestKind::Package {
        pairs.push((String::from_str("manager"), request.manager.clone()));
    }
    pairs.push((String::from_str("reason"), request.reason.clone()));
    let ghost base = pairs_view(pairs@);
    proof {
        match request.kind {
            RequestKind::Package => assert(base =~= seq![("manager"@, request.manager@), ("reason"@, request.reason@)]),
            _ => assert(base =~= seq![("reason"@, request.reason@)]),
        }
    }
    let metadata = request_metadata(pairs, request.task_id.clone());
    proof {
        match &request.task_id {
            Some(t) => {
                assert(metadata@ =~= metadata@.subrange(0, metadata@.len() - 1).push(metadata@.last()));
                assert(pairs_view(metadata@) =~= base.push(("task_id"@, t@)));
            },
            None => {},
        }
    }
    audit_record(request, status, metadata)
}

fn work(request: &AgentRequest, manager: PackageManager, scope: &String) -> (r: Action)
    ensures
        match request.kind {
            RequestKind::Package => r matches Action::Install(m, p, sc) && m == manager && p@
                == request.resource_id@ && sc@ == scope@,
            RequestKind::Secret => r matches Action::FetchSecret(id) && id@ == request.resource_id@,
            RequestKind::StoreSecret => r matches Action::StoreSecret(id, v) && id@ == request.resource_id@
                && v@ == request.value@,
        },
{
    match request.kind {
        RequestKind::Package => Action::Install(manager, request.resource_id.clone(), scope.clone()),
        RequestKind::Secret => Action::FetchSecret(request.resource_id.clone()),
        RequestKind::StoreSecret => Action::StoreSecret(request.resource_id.clone(), request.value.clone()),
    }
}

fn pending_reply(request: &AgentRequest) -> (r: Action)
    ensures
        match request.kind {
            RequestKind::Package => r matches Action::Reply(Reply::Package(x)) && x.request_id
                == request.request_id && x.status@ == "PENDING_APPROVAL"@ && x.lease_id@
                == Seq::<char>::empty() && x.error_message@ == pending_message(),
            RequestKind::Secret => r matches Action::Reply(Reply::Secret(x)) && x.request_id
                == request.request_id && x.status@ == "PENDING_APPROVAL"@ && x.value@ == Seq::<
                char,
            >::empty() && x.lease_id@ == Seq::<char>::empty() && x.error_message@ == pending_message(),
            RequestKind::StoreSecret => r matches Action::Reply(Reply::Store(x)) && x.request_id
                == request.request_id && !x.success && x.error_message@ == pending_message(),
        },
{
    match request.kind {
        RequestKind::Package => Action::Reply(Reply::Package(package_pending(request.request_id.clone()))),
        RequestKind::Secret => Action::Reply(Reply::Secret(secret_pending(request.request_id.clone()))),
        RequestKind::StoreSecret => Action::Reply(Reply::Store(store_pending(request.request_id.clone()))),
    }
}

impl RequestSession {
    /// A request that has just arrived.
    pub fn new(request: AgentRequest) -> (r: Self)
        ensures
            r.request == request,
            r.phase is Received,
            r.task is None,
    {
        RequestSession {
            request,
            task: None,
            manager: PackageManager::Pip,
            scope: String::new(),
            phase: Phase::Received,
        }
    }

    /// Whether the request has been answered or refused.
    pub fn is_finished(&self) -> (r: bool)
        ensures
            r == self.phase is Finished,
    {
        match self.phase {
            Phase::Finished => true,
            _ => false,
        }
    }

    /// The next step of the request: see [`steps_to`].
    pub fn step(self, engine: &PolicyEngine, event: Event, draw: Draw) -> (r: (RequestSession, Action))
        requires
            accepts(self, event),
            draw_fits(self, event, draw),
        ensures
            steps_to(self, engine@, event, draw, r.0, r.1),
    {
        let RequestSession { request, task, manager, scope, phase } = self;
        match phase {
            Phase::Received => begin(request, scope),
            Phase::AwaitTask => match event {
                Event::TaskFound(found) => {
                    match check_task_active(found.as_ref()) {
                        Err(e) => fail(request, manager, scope, e),
                        Ok(()) => {
                            let t = found.unwrap();
                            match request.kind {
                                RequestKind::Secret => (
                                    RequestSession { request, task, manager, scope, phase: Phase::AwaitLock },
                                    Action::CheckLocked,
                                ),
                                RequestKind::Package => {
                                    let sc = t.scope_path.clone();
                                    let a = Action::CheckGrant(ResourceType::Package, request.resource_id.clone(), task);
                                    (RequestSession { request, task, manager, scope: sc, phase: Phase::AwaitGrant }, a)
                                },
                                RequestKind::StoreSecret => {
                                    let a = Action::CheckGrant(ResourceType::Secret, request.resource_id.clone(), task);
                                    (RequestSession { request, task, manager, scope, phase: Phase::AwaitGrant }, a)
                                },
                            }
                        },
                    }
                },
                _ => {
                    assert(false);
                    fail(request, manager, scope, Refusal::Internal(String::new()))
                },
            },
            Phase::AwaitLock => match event {
                Event::LockState(locked) => if locked {
                    let rid = request_identity(request.request_id.as_str(), draw.id);
                    (
                        RequestSession { request, task, manager, scope, phase: Phase::AwaitUnlockRecord(rid) },
                        Action::LookupApproval(rid),
                    )
                } else {
                    let a = Action::CheckGrant(resource_type_for(request.kind), request.resource_id.clone(), task);
                    (RequestSession { request, task, manager, scope, phase: Phase::AwaitGrant }, a)
                },
                _ => {
                    assert(false);
                    fail(request, manager, scope, Refusal::Internal(String::new()))
                },
            },
            Phase::AwaitUnlockRecord(rid) => match event {
                Event::ApprovalFound(Err(m)) => fail(request, manager, scope, Refusal::Internal(m)),
                Event::ApprovalFound(Ok(found)) => match unlock_step(found.as_ref()) {
                    UnlockStep::Unlock => (
                        RequestSession { request, task, manager, scope, phase: Phase::AwaitUnlock },
                        Action::Unlock,
                    ),
                    UnlockStep::Refuse(e) => fail(request, manager, scope, e),
                    UnlockStep::Locked(m) => {
                        let reply = secret_locked(request.request_id.clone(), m);
                        (
                            RequestSession { request, task, manager, scope, phase: Phase::Finished },
                            Action::Reply(Reply::Secret(reply)),
                        )
                    },
                    UnlockStep::RequestUnlock => {
                        let q = unlock_request(draw.id, rid, draw.now).unwrap();
                        let kept = q.clone();
                        (
                            RequestSession { request, task, manager, scope, phase: Phase::AwaitUnlockFiled(kept) },
                            Action::FileApproval(q),
                        )
                    },
                },
                _ => {
                    assert(false);
                    fail(request, manager, scope, Refusal::Internal(String::new()))
                },
            },
            Phase::AwaitUnlock => match event {
                Event::Unlocked(Err(m)) => fail(
                    request,
                    manager,
                    scope,
                    Refusal::Internal(join2("Human approved unlock, but unlock failed: ", m.as_str())),
                ),
                Event::Unlocked(Ok(())) => {
                    let a = Action::CheckGrant(resource_type_for(request.kind), request.resource_id.clone(), task);
                    (RequestSession { request, task, manager, scope, phase: Phase::AwaitGrant }, a)
                },
                _ => {
                    assert(false);
                    fail(request, manager, scope, Refusal::Internal(String::new()))
                },
            },
            Phase::AwaitUnlockFiled(q) => match event {
                Event::Filed(Err(m)) => fail(request, manager, scope, Refusal::Internal(m)),
                Event::Filed(Ok(())) => (
                    RequestSession { request, task, manager, scope, phase: Phase::AwaitUnlockNotified },
                    Action::NotifyApprovers(q),
                ),
                _ => {
                    assert(false);
                    fail(request, manager, scope, Refusal::Internal(String::new()))
                },
            },
            Phase::AwaitUnlockNotified => {
                    let reply = secret_locked(
                        request.request_id.clone(),
                        String::from_str("Keychain is locked. Unlock request sent to Telegram."),
                    );
                    (
                        RequestSession { request, task, manager, scope, phase: Phase::Finished },
                        Action::Reply(Reply::Secret(reply)),
                    )
            },
            Phase::AwaitGrant => match event {
                Event::Granted(granted) => {
                    if granted {
                        let a = work(&request, manager, &scope);
                        (RequestSession { request, task, manager, scope, phase: Phase::AwaitWork }, a)
                    } else {
                        match engine.evaluate(resource_type_for(request.kind), request.resource_id.as_str()) {
                            Decision::Allow => {
                                let a = work(&request, manager, &scope);
                                (RequestSession { request, task, manager, scope, phase: Phase::AwaitWork }, a)
                            },
                            Decision::Deny(m) => {
                                let rec = denial_record(&request, &m);
                                (
                                    RequestSession { request, task, manager, scope, phase: Phase::AwaitDenialAudit(m) },
                                    Action::Audit(rec),
                                )
                            },
                            Decision::PendingApproval(sc) => {
                                let rid = request_identity(request.request_id.as_str(), draw.id);
                                (
                                    RequestSession {
                                        request,
                                        task,
                                        manager,
                                        scope,
                                        phase: Phase::AwaitApprovalRecord(rid, sc),
                                    },
                                    Action::LookupApproval(rid),
                                )
                            },
                        }
                    }
                },
                _ => {
                    assert(false);
                    fail(request, manager, scope, Refusal::Internal(String::new()))
                },
            },
            Phase::AwaitApprovalRecord(rid, sc) => match event {
                Event::ApprovalFound(Err(m)) => fail(request, manager, scope, Refusal::Internal(m)),
                Event::ApprovalFound(Ok(Some(f))) => {
                    if same_text(f.status.as_str(), "Approved") {
                        let a = work(&request, manager, &scope);
                        (RequestSession { request, task, manager, scope, phase: Phase::AwaitWork }, a)
                    } else if same_text(f.status.as_str(), "Denied") {
                        let m = String::from_str("Request was denied by human approver");
                        let rec = denial_record(&request, &m);
                        (
                            RequestSession { request, task, manager, scope, phase: Phase::AwaitDenialAudit(m) },
                            Action::Audit(rec),
                        )
                    } else {
                        let a = pending_reply(&request);
                        (RequestSession { request, task, manager, scope, phase: Phase::Finished }, a)
                    }
                },
                Event::ApprovalFound(Ok(None)) => {
                    let q = new_approval_request(
                        draw.id,
                        rid,
                        task,
                        resource_type_for(request.kind),
                        request.resource_id.clone(),
                        request.reason.clone(),
                        sc,
                        draw.now,
                    ).unwrap();
                    let kept = q.clone();
                    (
                        RequestSession { request, task, manager, scope, phase: Phase::AwaitApprovalFiled(kept) },
                        Action::FileApproval(q),
                    )
                },
                _ => {
                    assert(false);
                    fail(request, manager, scope, Refusal::Internal(String::new()))
                },
            },
            Phase::AwaitApprovalFiled(q) => match event {
                Event::Filed(Err(m)) => fail(request, manager, scope, Refusal::Internal(m)),
                Event::Filed(Ok(())) => (
                    RequestSession { request, task, manager, scope, phase: Phase::AwaitApprovalNotified },
                    Action::NotifyApprovers(q),
                ),
                _ => {
                    assert(false);
                    fail(request, manager, scope, Refusal::Internal(String::new()))
                },
            },
            Phase::AwaitApprovalNotified => {
                    let a = pending_reply(&request);
                    (RequestSession { request, task, manager, scope, phase: Phase::Finished }, a)
            },
            Phase::AwaitDenialAudit(reason) => match event {
                Event::Audited(Err(m)) => fail(
                    request,
                    manager,
                    scope,
                    Refusal::Internal(join2("Audit failed: ", m.as_str())),
                ),
                Event::Audited(Ok(())) => fail(request, manager, scope, Refusal::PermissionDenied(reason)),
                _ => {
                    assert(false);
                    fail(request, manager, scope, Refusal::Internal(String::new()))
                },
            },
            Phase::AwaitWork => {
                let o = match event {
                    Event::Installed(r) => Outcome::Installed(r),
                    Event::Fetched(r) => Outcome::Fetched(r),
                    Event::Stored(r) => Outcome::Stored(r),
                    _ => {
                        assert(false);
                        return fail(request, manager, scope, Refusal::Internal(String::new()));
                    },
                };
                let rec = outcome_record(&request, &o);
                (
                    RequestSession { request, task, manager, scope, phase: Phase::AwaitOutcomeAudit(o) },
                    Action::Audit(rec),
                )
            },
            Phase::AwaitOutcomeAudit(o) => match event {
                Event::Audited(Err(m)) => fail(
                    request,
                    manager,
                    scope,
                    Refusal::Internal(join2("Audit failed: ", m.as_str())),
                ),
                Event::Audited(Ok(())) => match o {
                    Outcome::Installed(Err(m)) => fail(request, manager, scope, installation_failed(m.as_str())),
                    Outcome::Installed(Ok(())) => {
                        let rid = request_identity(request.request_id.as_str(), draw.other_id);
                        let l = new_lease(
                            draw.id,
                            rid,
                            task,
                            manager,
                            request.resource_id.clone(),
                            scope.clone(),
                            draw.now,
                            request.ttl_seconds,
                        ).unwrap();
                        (
                            RequestSession { request, task, manager, scope, phase: Phase::AwaitLease(draw.id) },
                            Action::StoreLease(l),
                        )
                    },
                    Outcome::Fetched(r) => {
                        let reply = secret_outcome(request.request_id.clone(), r, draw.id);
                        (
                            RequestSession { request, task, manager, scope, phase: Phase::Finished },
                            Action::Reply(Reply::Secret(reply)),
                        )
                    },
                    Outcome::Stored(r) => {
                        let reply = store_outcome(request.request_id.clone(), r);
                        (
                            RequestSession { request, task, manager, scope, phase: Phase::Finished },
                            Action::Reply(Reply::Store(reply)),
                        )
                    },
                },
                _ => {
                    assert(false);
                    fail(request, manager, scope, Refusal::Internal(String::new()))
                },
            },
            Phase::AwaitLease(lid) => match event {
                Event::LeaseStored(Err(m)) => fail(
                    request,
                    manager,
                    scope,
                    Refusal::Internal(join2("Failed to store lease: ", m.as_str())),
                ),
                Event::LeaseStored(Ok(())) => {
                    let reply = package_executed(request.request_id.clone(), lid);
                    (
                        RequestSession { request, task, manager, scope, phase: Phase::Finished },
                        Action::Reply(Reply::Package(reply)),
                    )
                },
                _ => {
                    assert(false);
                    fail(request, manager, scope, Refusal::Internal(String::new()))
                },
            },
            Phase::Finished => {
                    assert(false);
                    fail(request, manager, scope, Refusal::Internal(String::new()))
                },
        }
    }
}

/// A request that has just arrived, taken through its first step: see
/// [`begins_with`].
pub fn start_request(engine: &PolicyEngine, request: AgentRequest, draw: Draw) -> (r: (RequestSession, Action))
    ensures
        begins_with(request, r.0, r.1),
{
    let s = RequestSession::new(request);
    s.step(engine, Event::Begin, draw)
}

fn begin(request: AgentRequest, scope: String) -> (r: (RequestSession, Action))
    ensures
        r.0.request == request,
        r.0.task == task_of(request.task_id),
        match request.kind {
            RequestKind::Package => match manager_of(request.manager@) {
                None => ends_with(r.0, r.1, RefusalView::InvalidArgument("Unsupported package manager"@)),
                Some(m) => {
                    &&& r.0.manager == m
                    &&& match r.0.task {
                        Some(id) => r.0.phase is AwaitTask && r.1 == Action::LookupTask(id),
                        None => r.0.scope@ == request.scope_path@ && to_grant_check(r.0, r.1),
                    }
                },
            },
            RequestKind::Secret => match r.0.task {
                Some(id) => r.0.phase is AwaitTask && r.1 == Action::LookupTask(id),
                None => r.0.phase is AwaitLock && r.1 is CheckLocked,
            },
            RequestKind::StoreSecret => match r.0.task {
                Some(id) => r.0.phase is AwaitTask && r.1 == Action::LookupTask(id),
                None => to_grant_check(r.0, r.1),
            },
        },
{
    proof {
        reveal_strlit("pip");
        reveal_strlit("brew");
        reveal_strlit("npm");
    }
    let task = match &request.task_id {
        Some(t) => crate::flow::task_reference(Some(t.as_str())),
        None => None,
    };
    match request.kind {
        RequestKind::Package => {
            let manager = match package_manager_named(request.manager.as_str()) {
                Ok(m) => m,
                Err(e) => {
                    return (
                        RequestSession { request, task, manager: PackageManager::Pip, scope, phase: Phase::Finished },
                        Action::Fail(e),
                    );
                },
            };
            match task {
                Some(id) => (
                    RequestSession { request, task, manager, scope, phase: Phase::AwaitTask },
                    Action::LookupTask(id),
                ),
                None => {
                    let sc = request.scope_path.clone();
                    let a = Action::CheckGrant(ResourceType::Package, request.resource_id.clone(), None);
                    (RequestSession { request, task, manager, scope: sc, phase: Phase::AwaitGrant }, a)
                },
            }
        },
        RequestKind::Secret => match task {
            Some(id) => (
                RequestSession { request, task, manager: PackageManager::Pip, scope, phase: Phase::AwaitTask },
                Action::LookupTask(id),
            ),
            None => (
                RequestSession { request, task, manager: PackageManager::Pip, scope, phase: Phase::AwaitLock },
                Action::CheckLocked,
            ),
        },
        RequestKind::StoreSecret => match task {
            Some(id) => (
                RequestSession { request, task, manager: PackageManager::Pip, scope, phase: Phase::AwaitTask },
                Action::LookupTask(id),
            ),
            None => {
                let a = Action::CheckGrant(ResourceType::Secret, request.resource_id.clone(), None);
                (RequestSession { request, task, manager: PackageManager::Pip, scope, phase: Phase::AwaitGrant }, a)
            },
        },
    }
}

/// How many steps a session in this phase has left at most.
pub open spec fn steps_left(p: Phase) -> nat {
    match p {
        Phase::Received => 10,
        Phase::AwaitTask => 9,
        Phase::AwaitLock => 8,
        Phase::AwaitUnlockRecord(_) => 7,
        Phase::AwaitUnlock => 6,
        Phase::AwaitGrant => 5,
        Phase::AwaitApprovalRecord(_, _) => 4,
        Phase::AwaitWork => 3,
        Phase::AwaitOutcomeAudit(_) => 2,
        Phase::AwaitLease(_) => 1,
        Phase::AwaitUnlockFiled(_) => 2,
        Phase::AwaitUnlockNotified => 1,
        Phase::AwaitApprovalFiled(_) => 2,
        Phase::AwaitApprovalNotified => 1,
        Phase::AwaitDenialAudit(_) => 1,
        Phase::Finished => 0,
    }
}

/// Every request is answered or refused: each step brings it closer to the
/// end, so that no request takes more than ten steps.
pub proof fn lemma_requests_end(s: RequestSession, ps: Seq<crate::models::Policy>, e: Event, d: Draw, t: RequestSession, a: Action)
    requires
        accepts(s, e),
        steps_to(s, ps, e, d, t, a),
    ensures
        steps_left(t.phase) < steps_left(s.phase),
        t.phase is Finished <==> (a is Reply || a is Fail),
{
}

/// Nothing is installed, read or stored without clearance: the backend is
/// asked only once a standing grant covers the request, the policy allows
/// it, or a human has approved it.
pub proof fn lemma_work_needs_clearance(s: RequestSession, ps: Seq<crate::models::Policy>, e: Event, d: Draw, t: RequestSession, a: Action)
    requires
        accepts(s, e),
        steps_to(s, ps, e, d, t, a),
        a is Install || a is FetchSecret || a is StoreSecret,
    ensures
        ({
            ||| (s.phase is AwaitGrant && (e matches Event::Granted(g) && (g || decide(
                ps,
                resource_type_of(s.request.kind),
                s.request.resource_id@,
            ) is Allow)))
            ||| (s.phase is AwaitApprovalRecord && (e matches Event::ApprovalFound(Ok(Some(f)))
                && f.status@ == approved_status()))
        }),
{
}

/// A request refused for want of permission has its refusal in the audit log
/// first; the one exception is a keychain unlock that a human denied.
pub proof fn lemma_denials_are_audited(s: RequestSession, ps: Seq<crate::models::Policy>, e: Event, d: Draw, t: RequestSession, a: Action)
    requires
        accepts(s, e),
        steps_to(s, ps, e, d, t, a),
        a matches Action::Fail(r) && r is PermissionDenied,
    ensures
        ({
            ||| (s.phase is AwaitDenialAudit && e matches Event::Audited(Ok(_)))
            ||| (s.phase is AwaitUnlockRecord && (e matches Event::ApprovalFound(Ok(Some(f)))
                && f.status@ != approved_status() && f.status@ == denied_status()))
        }),
{
    let r = a->Fail_0;
    assert(r@ == RefusalView::PermissionDenied(r->PermissionDenied_0@));
}

/// A secret's value leaves the daemon only after its access is in the audit
/// log: a "GRANTED" answer carries the value the keychain gave, once the
/// audit of that access has been appended.
pub proof fn lemma_secrets_leave_after_audit(s: RequestSession, ps: Seq<crate::models::Policy>, e: Event, d: Draw, t: RequestSession, a: Action)
    requires
        accepts(s, e),
        steps_to(s, ps, e, d, t, a),
        a matches Action::Reply(Reply::Secret(r)) && r.status@ == "GRANTED"@,
    ensures
        s.phase matches Phase::AwaitOutcomeAudit(Outcome::Fetched(Ok(v))) && (e matches Event::Audited(Ok(_))
            && (a matches Action::Reply(Reply::Secret(r)) && r.value == v)),
{
    reveal_strlit("GRANTED");
    reveal_strlit("LOCKED");
    reveal_strlit("PENDING_APPROVAL");
    reveal_strlit("DENIED");
    assert("GRANTED"@[0] != "LOCKED"@[0]);
    assert("GRANTED"@[0] != "PENDING_APPROVAL"@[0]);
    assert("GRANTED"@[0] != "DENIED"@[0]);
}

/// Secrets stay out of the audit log: every audit event a request writes is
/// about the request's resource id, and its annotations are either the
/// outcome's (manager, reason, task id) or the reason of a refusal; neither
/// the value read from nor the value written to the keychain appears.
pub proof fn lemma_audits_hold_no_secret(s: RequestSession, ps: Seq<crate::models::Policy>, e: Event, d: Draw, t: RequestSession, a: Action)
    requires
        accepts(s, e),
        steps_to(s, ps, e, d, t, a),
        a is Audit,
    ensures
        a matches Action::Audit(rec) && rec.resource_id@ == s.request.resource_id@ && ({
            ||| pairs_view(rec.metadata@) == outcome_metadata(s.request)
            ||| exists|m: Seq<char>| pairs_view(rec.metadata@) == seq![("reason"@, m)] && (m
                == human_denial_reason() || decide(
                ps,
                resource_type_of(s.request.kind),
                s.request.resource_id@,
            ) == DecisionView::Deny(m))
        }),
{
    let rec = a->Audit_0;
    if s.phase is AwaitGrant {
        match decide(ps, resource_type_of(s.request.kind), s.request.resource_id@) {
            DecisionView::Deny(m) => {
                assert(pairs_view(rec.metadata@) == seq![("reason"@, m)]);
            },
            _ => {},
        }
    } else if s.phase is AwaitApprovalRecord {
        assert(pairs_view(rec.metadata@) == seq![("reason"@, human_denial_reason())]);
    }
}

/// The time drawn for a step leaves room for what it records in every phase
/// as long as it lies a lease's lifetime (and fifteen minutes) short of the
/// end of `i64` seconds: no phase of a request is closed to its runner.
pub proof fn lemma_draws_fit(s: RequestSession, e: Event, d: Draw)
    requires
        s.request.ttl_seconds <= i64::MAX,
        d.now.secs + 900 <= i64::MAX,
        d.now.secs + s.request.ttl_seconds <= i64::MAX,
    ensures
        draw_fits(s, e, d),
{
}

/// Approvers hear only of recorded requests: an approval request goes to the
/// approvers only in the step after the store reported that very request
/// recorded, and a request whose record failed is refused with the store's
/// error and sent to nobody.
pub proof fn lemma_approvers_notified_after_record(s: RequestSession, ps: Seq<crate::models::Policy>, e: Event, d: Draw, t: RequestSession, a: Action)
    requires
        accepts(s, e),
        steps_to(s, ps, e, d, t, a),
    ensures
        a is NotifyApprovers ==> ({
            &&& (s.phase == Phase::AwaitApprovalFiled(a->NotifyApprovers_0) || s.phase == Phase::AwaitUnlockFiled(
                a->NotifyApprovers_0,
            ))
            &&& e matches Event::Filed(Ok(_))
        }),
        ((s.phase is AwaitApprovalFiled || s.phase is AwaitUnlockFiled) && e is Filed && e->Filed_0 is Err) ==> (
        t.phase is Finished && (a matches Action::Fail(r) && r@ == RefusalView::Internal(e->Filed_0->Err_0@))),
        a is FileApproval ==> (t.phase == Phase::AwaitApprovalFiled(a->FileApproval_0) || t.phase
            == Phase::AwaitUnlockFiled(a->FileApproval_0)),
{
}

/// A "Once" approval covers only its own request: once the grant check finds
/// nothing (a Once approval adds no grant, see [`crate::store::record_decision`])
/// and the policy asks for approval, the request goes ahead when an approval
/// recorded under its own request id is "Approved", and is put to a human
/// again when no approval is recorded under its id, as for a new request id.
pub proof fn lemma_once_approval_covers_only_its_request(
    s0: RequestSession,
    ps: Seq<crate::models::Policy>,
    d0: Draw,
    s1: RequestSession,
    a1: Action,
    found: Option<ApprovalRequest>,
    d1: Draw,
    s2: RequestSession,
    a2: Action,
)
    requires
        s0.phase is AwaitGrant,
        decide(ps, resource_type_of(s0.request.kind), s0.request.resource_id@) is PendingApproval,
        steps_to(s0, ps, Event::Granted(false), d0, s1, a1),
        steps_to(s1, ps, Event::ApprovalFound(Ok(found)), d1, s2, a2),
    ensures
        a1 == Action::LookupApproval(identity_of(s0.request.request_id@, d0.id)),
        (found matches Some(f) && f.status@ == approved_status()) ==> to_work(s2, a2),
        found is None ==> a2 is FileApproval && s2.phase is AwaitApprovalFiled,
{
}

/// A request that a human denied is refused again when it comes back under
/// the same request id: the denial is audited, then the request is refused
/// with "Request was denied by human approver".
pub proof fn lemma_denied_request_stays_denied(
    s1: RequestSession,
    ps: Seq<crate::models::Policy>,
    f: ApprovalRequest,
    d1: Draw,
    s2: RequestSession,
    a2: Action,
    d2: Draw,
    s3: RequestSession,
    a3: Action,
)
    requires
        s1.phase is AwaitApprovalRecord,
        f.status@ == denied_status(),
        steps_to(s1, ps, Event::ApprovalFound(Ok(Some(f))), d1, s2, a2),
        steps_to(s2, ps, Event::Audited(Ok(())), d2, s3, a3),
    ensures
        a2 matches Action::Audit(rec) && rec.status@ == "DENIED"@,
        a3 matches Action::Fail(r) && r@ == RefusalView::PermissionDenied(human_denial_reason()),
        s3.phase is Finished,
{
    reveal_strlit("Approved");
    reveal_strlit("Denied");
    assert(approved_status()[0] != denied_status()[0]);
}

/// A package for a task goes into the task's scope: when a package request
/// names a task that the store finds active, the install (once a grant or
/// the policy clears it) targets that task's scope path, whatever scope path
/// the request itself carries, and so does the lease recorded afterwards.
pub proof fn lemma_task_packages_stay_in_the_task(
    s0: RequestSession,
    ps: Seq<crate::models::Policy>,
    task: Task,
    d0: Draw,
    s1: RequestSession,
    a1: Action,
    d1: Draw,
    s2: RequestSession,
    a2: Action,
    d2: Draw,
    s3: RequestSession,
    a3: Action,
)
    requires
        s0.request.kind == RequestKind::Package,
        s0.phase is AwaitTask,
        task.status == TaskStatus::Active,
        steps_to(s0, ps, Event::TaskFound(Some(task)), d0, s1, a1),
        steps_to(s1, ps, Event::Granted(true), d1, s2, a2),
    ensures
        a1 is CheckGrant,
        a2 matches Action::Install(m, p, scope) && scope@ == task.scope_path@ && p@ == s0.request.resource_id@,
        s2.scope@ == task.scope_path@,
{
}

/// The lease of an installed package records the scope it was installed
/// into: the step that follows the audit of a good install stores a lease
/// whose scope path is the one the install used.
pub proof fn lemma_lease_records_the_install_scope(
    s0: RequestSession,
    ps: Seq<crate::models::Policy>,
    d0: Draw,
    s1: RequestSession,
    a1: Action,
    d1: Draw,
    s2: RequestSession,
    a2: Action,
)
    requires
        s0.request.kind == RequestKind::Package,
        s0.phase is AwaitWork,
        steps_to(s0, ps, Event::Installed(Ok(())), d0, s1, a1),
        steps_to(s1, ps, Event::Audited(Ok(())), d1, s2, a2),
    ensures
        a2 matches Action::StoreLease(l) && l.scope_path@ == s0.scope@ && l.package_name@ == s0.request.resource_id@,
{
}

/// A request whose recorded approval is neither "Approved" nor "Denied"
/// (a human has not decided) is answered as pending: nothing is audited,
/// nothing refused; only a recorded "Denied" leads to the audit of a
/// refusal, and only a recorded "Approved" to the work.
pub proof fn lemma_undecided_approval_stays_pending(
    s: RequestSession,
    ps: Seq<crate::models::Policy>,
    f: ApprovalRequest,
    d: Draw,
    t: RequestSession,
    a: Action,
)
    requires
        s.phase is AwaitApprovalRecord,
        steps_to(s, ps, Event::ApprovalFound(Ok(Some(f))), d, t, a),
    ensures
        (f.status@ != "Approved"@ && f.status@ != "Denied"@) ==> {
            &&& t.phase is Finished
            &&& !(a is Audit) && !(a is Fail)
            &&& match s.request.kind {
                RequestKind::Package => a matches Action::Reply(Reply::Package(r)) && r.status@
                    == "PENDING_APPROVAL"@ && r.error_message@ == "Request is pending human approval"@,
                RequestKind::Secret => a matches Action::Reply(Reply::Secret(r)) && r.status@
                    == "PENDING_APPROVAL"@ && r.error_message@ == "Request is pending human approval"@,
                RequestKind::StoreSecret => a matches Action::Reply(Reply::Store(r)) && !r.success
                    && r.error_message@ == "Request is pending human approval"@,
            }
        },
        a is Audit ==> f.status@ == "Denied"@,
        (a is Install || a is FetchSecret || a is StoreSecret) ==> f.status@ == "Approved"@,
{
}

/// The gates before any work: a package request naming a manager other than
/// "pip", "brew" and "npm" is refused as an invalid argument; a request whose
/// named task is missing is refused with "Task not found or inactive", and
/// one whose task is no longer active with "Task is no longer active".
pub proof fn lemma_requests_are_gated(
    s: RequestSession,
    ps: Seq<crate::models::Policy>,
    e: Event,
    d: Draw,
    t: RequestSession,
    a: Action,
)
    requires
        accepts(s, e),
        steps_to(s, ps, e, d, t, a),
    ensures
        (s.phase is Received && s.request.kind == RequestKind::Package && s.request.manager@ != "pip"@
            && s.request.manager@ != "brew"@ && s.request.manager@ != "npm"@) ==> (t.phase is Finished && (
        a matches Action::Fail(r) && r@ == RefusalView::InvalidArgument("Unsupported package manager"@))),
        (s.phase is AwaitTask && e == Event::TaskFound(None)) ==> (a matches Action::Fail(r) && r@
            == RefusalView::FailedPrecondition("Task not found or inactive"@)),
        (s.phase is AwaitTask && e is TaskFound && e->TaskFound_0 is Some && e->TaskFound_0->Some_0.status
            != TaskStatus::Active) ==> (a matches Action::Fail(r) && r@ == RefusalView::FailedPrecondition(
            "Task is no longer active"@,
        )),
{
}

} // verus!
