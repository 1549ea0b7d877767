//! The daemon's request handling, as decisions over what its store and
//! backends answer: the task gate, the approval step, the keychain unlock
//! step, and the responses and records that each outcome produces.
use vstd::prelude::*;
use crate::models::{
    ApprovalRequest, ApprovalScope, Decision, DecisionView, Lease, LeaseStatus, PackageManager,
    ResourceType, Task, TaskStatus, Timestamp,
};
use crate::store::{approved_status, denied_status, pending_status};
use crate::text::{join2, same_text};
use crate::encoding::{uuid_hyphenated, uuid_parse, uuid_from_text, uuid_to_text};

verus! {

/// Why a service refuses a call, by the status code it answers with.
#[derive(Debug)]
pub enum Refusal {
    InvalidArgument(String),
    FailedPrecondition(String),
    PermissionDenied(String),
    NotFound(String),
    Internal(String),
}

/// The mathematical value of a [`Refusal`].
pub enum RefusalView {
    InvalidArgument(Seq<char>),
    FailedPrecondition(Seq<char>),
    PermissionDenied(Seq<char>),
    NotFound(Seq<char>),
    Internal(Seq<char>),
}

impl View for Refusal {
    type V = RefusalView;

    open spec fn view(&self) -> RefusalView {
        match self {
            Refusal::InvalidArgument(m) => RefusalView::InvalidArgument(m@),
            Refusal::FailedPrecondition(m) => RefusalView::FailedPrecondition(m@),
            Refusal::PermissionDenied(m) => RefusalView::PermissionDenied(m@),
            Refusal::NotFound(m) => RefusalView::NotFound(m@),
            Refusal::Internal(m) => RefusalView::Internal(m@),
        }
    }
}

/// Result of handling a pending approval decision.
/// Indicates what action the caller should take.
#[derive(Debug)]
pub enum ApprovalHandling {
    /// Approval was granted, proceed with the request
    Approved,
    /// Approval request was created and sent to approvers
    Pending,
    /// Request was denied
    Denied(String),
}

/// The mathematical value of an [`ApprovalHandling`].
pub enum HandlingView {
    Approved,
    Pending,
    Denied(Seq<char>),
}

impl View for ApprovalHandling {
    type V = HandlingView;

    open spec fn view(&self) -> HandlingView {
        match self {
            ApprovalHandling::Approved => HandlingView::Approved,
            ApprovalHandling::Pending => HandlingView::Pending,
            ApprovalHandling::Denied(m) => HandlingView::Denied(m@),
        }
    }
}

/// What follows a policy decision: the request is settled, or a new approval
/// request of the given scope is to be recorded and sent to the approvers,
/// after which the request is pending.
#[derive(Debug)]
pub enum ApprovalStep {
    Settled(ApprovalHandling),
    RequestApproval(ApprovalScope),
}

/// The mathematical value of an [`ApprovalStep`].
pub enum StepView {
    Settled(HandlingView),
    RequestApproval(ApprovalScope),
}

impl View for ApprovalStep {
    type V = StepView;

    open spec fn view(&self) -> StepView {
        match self {
            ApprovalStep::Settled(h) => StepView::Settled(h@),
            ApprovalStep::RequestApproval(s) => StepView::RequestApproval(*s),
        }
    }
}

/// The reason given when a human has denied the request.
pub open spec fn human_denial_reason() -> Seq<char> {
    "Request was denied by human approver"@
}

/// What follows a policy decision, given the approval request already
/// recorded for the same request id, if any: an allowed request proceeds and a
/// denied one is refused with the policy's reason; a request that needs
/// approval follows the human decision recorded for it (approved, denied, or
/// still pending), and where none is recorded a new approval request is made
/// in the policy's scope.
pub open spec fn approval_step_of(decision: DecisionView, existing: Option<ApprovalRequest>) -> StepView {
    match decision {
        DecisionView::Allow => StepView::Settled(HandlingView::Approved),
        DecisionView::Deny(m) => StepView::Settled(HandlingView::Denied(m)),
        DecisionView::PendingApproval(scope) => match existing {
            Some(found) => if found.status@ == approved_status() {
                StepView::Settled(HandlingView::Approved)
            } else if found.status@ == denied_status() {
                StepView::Settled(HandlingView::Denied(human_denial_reason()))
            } else {
                StepView::Settled(HandlingView::Pending)
            },
            None => StepView::RequestApproval(scope),
        },
    }
}

/// Handle a policy decision that requires approval: see [`approval_step_of`].
/// `existing` is the approval request recorded for the same request id.
pub fn approval_step(decision: Decision, existing: Option<&ApprovalRequest>) -> (r: ApprovalStep)
    ensures
        r@ == approval_step_of(
            decision@,
            match existing {
                Some(f) => Some(*f),
                None => None,
            },
        ),
{
    match decision {
        Decision::Allow => ApprovalStep::Settled(ApprovalHandling::Approved),
        Decision::Deny(reason) => ApprovalStep::Settled(ApprovalHandling::Denied(reason)),
        Decision::PendingApproval(scope) => match existing {
            Some(found) => {
                if same_text(found.status.as_str(), "Approved") {
                    ApprovalStep::Settled(ApprovalHandling::Approved)
                } else if same_text(found.status.as_str(), "Denied") {
                    ApprovalStep::Settled(
                        ApprovalHandling::Denied(String::from_str("Request was denied by human approver")),
                    )
                } else {
                    ApprovalStep::Settled(ApprovalHandling::Pending)
                }
            },
            None => ApprovalStep::RequestApproval(scope),
        },
    }
}

/// How long a new approval request waits for a human, in seconds.
pub const APPROVAL_WINDOW_SECONDS: i64 = 900;

/// A new pending approval request created at `now`, which expires fifteen
/// minutes later; `None` where that instant leaves the range of `i64` seconds.
pub fn new_approval_request(
    id: u128,
    request_id: u128,
    task_id: Option<u128>,
    resource_type: ResourceType,
    resource_id: String,
    reason: String,
    scope: ApprovalScope,
    now: Timestamp,
) -> (r: Option<ApprovalRequest>)
    ensures
        r is Some <==> now.secs + 900 <= i64::MAX,
        r matches Some(q) ==> {
            &&& q.id == id
            &&& q.request_id == request_id
            &&& q.task_id == task_id
            &&& q.resource_type == resource_type
            &&& q.resource_id == resource_id
            &&& q.reason == reason
            &&& q.status@ == pending_status()
            &&& q.scope == scope
            &&& q.created_at == now
            &&& q.expires_at.secs == now.secs + 900 && q.expires_at.nanos == now.nanos
        },
{
    match now.plus_seconds(APPROVAL_WINDOW_SECONDS) {
        Some(expires_at) => Some(
            ApprovalRequest {
                id,
                request_id,
                task_id,
                resource_type,
                resource_id,
                reason,
                status: String::from_str("Pending"),
                scope,
                created_at: now,
                expires_at,
            },
        ),
        None => None,
    }
}

/// The refusal for a task that cannot be found.
pub open spec fn task_missing_message() -> Seq<char> {
    "Task not found or inactive"@
}

/// The refusal for a task that has ended.
pub open spec fn task_ended_message() -> Seq<char> {
    "Task is no longer active"@
}

/// The task gate: a request made within a task proceeds only while the task
/// exists and is active. `task` is what the store found for the task id.
pub fn check_task_active(task: Option<&Task>) -> (r: Result<(), Refusal>)
    ensures
        task is None ==> (r matches Err(e) && e@ == RefusalView::FailedPrecondition(task_missing_message())),
        task matches Some(t) ==> (t.status == TaskStatus::Active <==> r is Ok),
        task matches Some(t) && t.status != TaskStatus::Active ==> (r matches Err(e) && e@
            == RefusalView::FailedPrecondition(task_ended_message())),
{
    match task {
        None => Err(Refusal::FailedPrecondition(String::from_str("Task not found or inactive"))),
        Some(t) => if t.status != TaskStatus::Active {
            Err(Refusal::FailedPrecondition(String::from_str("Task is no longer active")))
        } else {
            Ok(())
        },
    }
}

/// Where a package is installed: in the task's scope where the request names
/// a task (`task` holds what the store found for it), after the task gate;
/// in the requested scope otherwise.
pub fn install_scope(task: Option<Option<&Task>>, requested_scope: &str) -> (r: Result<String, Refusal>)
    ensures
        task is None ==> (r matches Ok(s) && s@ == requested_scope@),
        task matches Some(None) ==> (r matches Err(e) && e@ == RefusalView::FailedPrecondition(
            task_missing_message(),
        )),
        task matches Some(Some(t)) ==> (t.status == TaskStatus::Active ==> (r matches Ok(s) && s@
            == t.scope_path@)),
        task matches Some(Some(t)) ==> (t.status != TaskStatus::Active ==> (r matches Err(e) && e@
            == RefusalView::FailedPrecondition(task_ended_message()))),
{
    match task {
        None => Ok(String::from_str(requested_scope)),
        Some(found) => match check_task_active(found) {
            Ok(()) => {
                let t = found.unwrap();
                Ok(t.scope_path.clone())
            },
            Err(e) => Err(e),
        },
    }
}

/// The package manager a request names: "pip", "brew" or "npm".
pub fn package_manager_named(name: &str) -> (r: Result<PackageManager, Refusal>)
    ensures
        name@ == "pip"@ ==> r == Ok::<PackageManager, Refusal>(PackageManager::Pip),
        name@ == "brew"@ ==> r == Ok::<PackageManager, Refusal>(PackageManager::Brew),
        name@ == "npm"@ ==> r == Ok::<PackageManager, Refusal>(PackageManager::Npm),
        (name@ != "pip"@ && name@ != "brew"@ && name@ != "npm"@) ==> (r matches Err(e) && e@
            == RefusalView::InvalidArgument("Unsupported package manager"@)),
{
    proof {
        reveal_strlit("pip");
        reveal_strlit("brew");
        reveal_strlit("npm");
        assert("brew"@.len() != "pip"@.len());
        assert("npm"@[0] != "pip"@[0]);
        assert("npm"@.len() != "brew"@.len());
    }
    if same_text(name, "pip") {
        Ok(PackageManager::Pip)
    } else if same_text(name, "brew") {
        Ok(PackageManager::Brew)
    } else if same_text(name, "npm") {
        Ok(PackageManager::Npm)
    } else {
        Err(Refusal::InvalidArgument(String::from_str("Unsupported package manager")))
    }
}

/// The task a request names: its id where the text is a UUID; a text that is
/// not is treated as naming no task.
pub fn task_reference(task_id: Option<&str>) -> (r: Option<u128>)
    ensures
        task_id is None ==> r is None,
        task_id matches Some(t) ==> r == uuid_from_text(t@),
{
    match task_id {
        Some(t) => uuid_parse(t),
        None => None,
    }
}

/// The request id a request carries, or `fresh` where its text is not a UUID.
pub fn request_identity(request_id: &str, fresh: u128) -> (r: u128)
    ensures
        r == match uuid_from_text(request_id@) {
            Some(x) => x,
            None => fresh,
        },
{
    match uuid_parse(request_id) {
        Some(x) => x,
        None => fresh,
    }
}

/// The reply to a package request.
#[derive(Debug)]
pub struct PackageResponse {
    pub request_id: String,
    pub status: String,
    pub lease_id: String,
    pub error_message: String,
}

/// The reply to a request for a secret.
#[derive(Debug)]
pub struct SecretResponse {
    pub request_id: String,
    pub status: String,
    pub value: String,
    pub lease_id: String,
    pub error_message: String,
}

/// The reply to a request to store a secret.
#[derive(Debug)]
pub struct StoreResponse {
    pub request_id: String,
    pub success: bool,
    pub error_message: String,
}

/// The message of a reply to a request that waits for a human.
pub open spec fn pending_message() -> Seq<char> {
    "Request is pending human approval"@
}

/// The reply to a package request that waits for a human.
pub fn package_pending(request_id: String) -> (r: PackageResponse)
    ensures
        r.request_id == request_id,
        r.status@ == "PENDING_APPROVAL"@,
        r.lease_id@ == Seq::<char>::empty(),
        r.error_message@ == pending_message(),
{
    PackageResponse {
        request_id,
        status: String::from_str("PENDING_APPROVAL"),
        lease_id: String::new(),
        error_message: String::from_str("Request is pending human approval"),
    }
}

/// The reply to an executed package request, naming its lease.
pub fn package_executed(request_id: String, lease_id: u128) -> (r: PackageResponse)
    ensures
        r.request_id == request_id,
        r.status@ == "EXECUTED"@,
        r.lease_id@ == uuid_hyphenated(lease_id),
        r.error_message@ == Seq::<char>::empty(),
{
    PackageResponse {
        request_id,
        status: String::from_str("EXECUTED"),
        lease_id: uuid_to_text(lease_id),
        error_message: String::new(),
    }
}

/// The reply to a secret request that waits for a human.
pub fn secret_pending(request_id: String) -> (r: SecretResponse)
    ensures
        r.request_id == request_id,
        r.status@ == "PENDING_APPROVAL"@,
        r.value@ == Seq::<char>::empty(),
        r.lease_id@ == Seq::<char>::empty(),
        r.error_message@ == pending_message(),
{
    SecretResponse {
        request_id,
        status: String::from_str("PENDING_APPROVAL"),
        value: String::new(),
        lease_id: String::new(),
        error_message: String::from_str("Request is pending human approval"),
    }
}

/// The reply to a secret request once the keychain has answered: the value,
/// "GRANTED", under a new lease id, or the keychain's error, "DENIED".
pub fn secret_outcome(request_id: String, fetched: Result<String, String>, lease_id: u128) -> (r: SecretResponse)
    ensures
        r.request_id == request_id,
        fetched matches Ok(v) ==> r.status@ == "GRANTED"@ && r.value == v && r.lease_id@ == uuid_hyphenated(
            lease_id,
        ) && r.error_message@ == Seq::<char>::empty(),
        fetched matches Err(e) ==> r.status@ == "DENIED"@ && r.value@ == Seq::<char>::empty()
            && r.lease_id@ == Seq::<char>::empty() && r.error_message == e,
{
    match fetched {
        Ok(value) => SecretResponse {
            request_id,
            status: String::from_str("GRANTED"),
            value,
            lease_id: uuid_to_text(lease_id),
            error_message: String::new(),
        },
        Err(e) => SecretResponse {
            request_id,
            status: String::from_str("DENIED"),
            value: String::new(),
            lease_id: String::new(),
            error_message: e,
        },
    }
}

/// The reply to a store request that waits for a human.
pub fn store_pending(request_id: String) -> (r: StoreResponse)
    ensures
        r.request_id == request_id,
        !r.success,
        r.error_message@ == pending_message(),
{
    StoreResponse {
        request_id,
        success: false,
        error_message: String::from_str("Request is pending human approval"),
    }
}

/// The reply to a store request once the keychain has answered.
pub fn store_outcome(request_id: String, stored: Result<(), String>) -> (r: StoreResponse)
    ensures
        r.request_id == request_id,
        r.success == stored is Ok,
        stored is Ok ==> r.error_message@ == Seq::<char>::empty(),
        stored matches Err(e) ==> r.error_message == e,
{
    match stored {
        Ok(()) => StoreResponse { request_id, success: true, error_message: String::new() },
        Err(e) => StoreResponse { request_id, success: false, error_message: e },
    }
}

/// The audit status of an outcome: `success` where it succeeded, `failure`
/// otherwise.
pub fn outcome_status(succeeded: bool, success: &str, failure: &str) -> (r: String)
    ensures
        r@ == if succeeded {
            success@
        } else {
            failure@
        },
{
    if succeeded {
        String::from_str(success)
    } else {
        String::from_str(failure)
    }
}

/// The annotations of an audited request: the given pairs, then the task id
/// where the request named one.
pub fn request_metadata(pairs: Vec<(String, String)>, task_id: Option<String>) -> (r: Vec<(String, String)>)
    ensures
        task_id is None ==> r@ == pairs@,
        task_id matches Some(t) ==> r@.len() == pairs@.len() + 1 && r@.subrange(0, pairs@.len() as int)
            == pairs@ && r@.last().0@ == "task_id"@ && r@.last().1 == t,
{
    let mut r = pairs;
    match task_id {
        Some(t) => {
            let ghost before = r@;
            r.push((String::from_str("task_id"), t));
            assert(r@.subrange(0, before.len() as int) =~= before);
        },
        None => {},
    }
    r
}

/// A lease on a package installed at `now` for `ttl_seconds`; `None` where the
/// expiry leaves the range of `i64` seconds.
pub fn new_lease(
    id: u128,
    request_id: u128,
    task_id: Option<u128>,
    manager: PackageManager,
    package_name: String,
    scope_path: String,
    now: Timestamp,
    ttl_seconds: u64,
) -> (r: Option<Lease>)
    ensures
        r is Some <==> ttl_seconds <= i64::MAX && now.secs + ttl_seconds <= i64::MAX,
        r matches Some(l) ==> {
            &&& l.id == id
            &&& l.request_id == request_id
            &&& l.task_id == task_id
            &&& l.status == LeaseStatus::Active
            &&& l.manager == manager
            &&& l.package_name == package_name
            &&& l.package_version@ == "unknown"@
            &&& l.scope_path == scope_path
            &&& l.expires_at.secs == now.secs + ttl_seconds && l.expires_at.nanos == now.nanos
        },
{
    if ttl_seconds > i64::MAX as u64 {
        return None;
    }
    match now.plus_seconds(ttl_seconds as i64) {
        Some(expires_at) => Some(
            Lease {
                id,
                request_id,
                task_id,
                status: LeaseStatus::Active,
                manager,
                package_name,
                package_version: String::from_str("unknown"),
                scope_path,
                expires_at,
            },
        ),
        None => None,
    }
}

/// What follows when the keychain is locked, given the unlock approval
/// already recorded for the request id, if any.
#[derive(Debug)]
pub enum UnlockStep {
    /// A human approved the unlock: unlock, then evaluate the request.
    Unlock,
    /// Refuse the request.
    Refuse(Refusal),
    /// Still waiting for a human: answer "LOCKED" with this message.
    Locked(String),
    /// Record an unlock request, send it to the approvers and answer
    /// "LOCKED".
    RequestUnlock,
}

/// The message while an unlock request waits for a human.
pub open spec fn unlock_waiting_message() -> Seq<char> {
    "Keychain is locked. Please approve the unlock request on Telegram."@
}

/// The refusal once a human has denied the unlock.
pub open spec fn unlock_denied_message() -> Seq<char> {
    "Keychain unlock was denied by human approver"@
}

/// What follows when the keychain is locked, given the unlock approval
/// recorded for the request id, if any.
pub fn unlock_step(existing: Option<&ApprovalRequest>) -> (r: UnlockStep)
    ensures
        existing is None ==> r is RequestUnlock,
        existing matches Some(f) ==> (f.status@ == approved_status() <==> r is Unlock),
        existing matches Some(f) ==> (f.status@ != approved_status() && f.status@ == denied_status()
            <==> (r matches UnlockStep::Refuse(e) && e@ == RefusalView::PermissionDenied(unlock_denied_message()))),
        existing matches Some(f) ==> (f.status@ != approved_status() && f.status@ != denied_status()
            <==> (r matches UnlockStep::Locked(m) && m@ == unlock_waiting_message())),
{
    match existing {
        None => UnlockStep::RequestUnlock,
        Some(found) => {
            if same_text(found.status.as_str(), "Approved") {
                UnlockStep::Unlock
            } else if same_text(found.status.as_str(), "Denied") {
                UnlockStep::Refuse(
                    Refusal::PermissionDenied(String::from_str("Keychain unlock was denied by human approver")),
                )
            } else {
                UnlockStep::Locked(
                    String::from_str("Keychain is locked. Please approve the unlock request on Telegram."),
                )
            }
        },
    }
}

/// The reply while the keychain is locked.
pub fn secret_locked(request_id: String, message: String) -> (r: SecretResponse)
    ensures
        r.request_id == request_id,
        r.status@ == "LOCKED"@,
        r.value@ == Seq::<char>::empty(),
        r.lease_id@ == Seq::<char>::empty(),
        r.error_message == message,
{
    SecretResponse {
        request_id,
        status: String::from_str("LOCKED"),
        value: String::new(),
        lease_id: String::new(),
        error_message: message,
    }
}

/// The resource id of a keychain unlock request.
pub open spec fn unlock_resource() -> Seq<char> {
    "keychain-unlock"@
}

/// A new request to unlock the keychain, made at `now` for `request_id`;
/// `None` where its expiry leaves the range of `i64` seconds.
pub fn unlock_request(id: u128, request_id: u128, now: Timestamp) -> (r: Option<ApprovalRequest>)
    ensures
        r is Some <==> now.secs + 900 <= i64::MAX,
        r matches Some(q) ==> {
            &&& q.id == id
            &&& q.request_id == request_id
            &&& q.task_id is None
            &&& q.resource_type == ResourceType::System
            &&& q.resource_id@ == unlock_resource()
            &&& q.reason@ == "Keychain is locked and must be unlocked to access secrets."@
            &&& q.status@ == pending_status()
            &&& q.scope == ApprovalScope::Once
            &&& q.created_at == now
            &&& q.expires_at.secs == now.secs + 900 && q.expires_at.nanos == now.nanos
        },
{
    new_approval_request(
        id,
        request_id,
        None,
        ResourceType::System,
        String::from_str("keychain-unlock"),
        String::from_str("Keychain is locked and must be unlocked to access secrets."),
        ApprovalScope::Once,
        now,
    )
}

/// The refusal when an approved installation fails.
pub fn installation_failed(error: &str) -> (r: Refusal)
    ensures
        r@ == RefusalView::Internal("Installation failed: "@ + error@),
{
    Refusal::Internal(join2("Installation failed: ", error))
}

/// A human's decision binds the request it was asked for: a request that
/// needs approval and comes again under the same request id proceeds once it
/// is approved, is refused with "Request was denied by human approver" once
/// it is denied, and stays pending while no one has decided.
pub proof fn lemma_recorded_decision_settles_its_request(found: ApprovalRequest, scope: ApprovalScope)
    ensures
        found.status@ == approved_status() ==> approval_step_of(
            DecisionView::PendingApproval(scope),
            Some(found),
        ) == StepView::Settled(HandlingView::Approved),
        found.status@ == denied_status() ==> approval_step_of(
            DecisionView::PendingApproval(scope),
            Some(found),
        ) == StepView::Settled(HandlingView::Denied(human_denial_reason())),
        found.status@ == pending_status() ==> approval_step_of(
            DecisionView::PendingApproval(scope),
            Some(found),
        ) == StepView::Settled(HandlingView::Pending),
{
    reveal_strlit("Approved");
    reveal_strlit("Denied");
    reveal_strlit("Pending");
    assert(approved_status()[0] != denied_status()[0]);
    assert(approved_status()[0] != pending_status()[0]);
    assert(denied_status()[0] != pending_status()[0]);
}

/// An approval reaches no further than its request and its grants: a request
/// that needs approval, under a request id for which nothing is recorded, is
/// put to a human in the policy's scope, whatever was approved before for
/// other request ids.
pub proof fn lemma_unrecorded_request_asks_a_human(scope: ApprovalScope)
    ensures
        approval_step_of(DecisionView::PendingApproval(scope), None) == StepView::RequestApproval(scope),
{
}

/// The policy alone settles requests that it allows or denies: no human is
/// asked, whatever is recorded.
pub proof fn lemma_policy_settles_without_a_human(decision: DecisionView, existing: Option<ApprovalRequest>)
    ensures
        decision is Allow ==> approval_step_of(decision, existing) == StepView::Settled(HandlingView::Approved),
        decision matches DecisionView::Deny(m) ==> approval_step_of(decision, existing) == StepView::Settled(
            HandlingView::Denied(m),
        ),
{
}

} // verus!
