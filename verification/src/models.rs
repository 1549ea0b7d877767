//! The data model shared by the daemon, its store and its clients.
//!
//! Identifiers are 128-bit UUID values and instants are UTC timestamps given
//! as seconds and nanoseconds since the Unix epoch.
use vstd::prelude::*;

verus! {

/// The kind of resource that an agent asks for.
#[derive(Debug, Clone, Copy, PartialEq, Eq, Structural)]
pub enum ResourceType {
    Secret,
    Package,
    Command,
    System,
}

/// The package managers whose installs are brokered.
#[derive(Debug, Clone, Copy, PartialEq, Eq, Structural)]
pub enum PackageManager {
    Pip,
    Npm,
    Brew,
}

/// Request state tracking (planned for future use).
#[derive(Debug, Clone, Copy, PartialEq, Eq, Structural)]
pub enum RequestState {
    Received,
    Validated,
    AutoApproved,
    PendingApproval,
    Denied,
    TokenIssued,
    Executed,
    Completed,
    Expired,
    Revoked,
}

/// How far a human approval reaches.
#[derive(Debug, Clone, Copy, PartialEq, Eq, Structural)]
pub enum ApprovalScope {
    /// Only the specific request is approved
    Once,
    /// Approval lasts for the duration of the current task
    Task,
    /// Approval is permanent for the matched pattern
    Permanent,
}

impl Default for ApprovalScope {
    fn default() -> (r: Self)
        ensures
            r == ApprovalScope::Once,
    {
        ApprovalScope::Once
    }
}

/// Lifecycle of a task.
#[derive(Debug, Clone, Copy, PartialEq, Eq, Structural)]
pub enum TaskStatus {
    Active,
    Completed,
    Expired,
}

/// Lifecycle of a package lease.
#[derive(Debug, Clone, Copy, PartialEq, Eq, Structural)]
pub enum LeaseStatus {
    Active,
    Expired,
    Revoked,
}

/// An instant in UTC: seconds since the Unix epoch and the nanoseconds past
/// that second.
#[derive(Debug, Clone, Copy, PartialEq, Eq, Structural)]
pub struct Timestamp {
    pub secs: i64,
    pub nanos: u32,
}

/// `a` lies strictly before `b`.
pub open spec fn before(a: Timestamp, b: Timestamp) -> bool {
    a.secs < b.secs || (a.secs == b.secs && a.nanos < b.nanos)
}

impl Timestamp {
    /// This instant lies strictly before `other`.
    pub fn is_before(&self, other: &Timestamp) -> (r: bool)
        ensures
            r == before(*self, *other),
    {
        self.secs < other.secs || (self.secs == other.secs && self.nanos < other.nanos)
    }

    /// This instant moved forward by `seconds`, or `None` where the seconds
    /// would leave the range of `i64`.
    pub fn plus_seconds(&self, seconds: i64) -> (r: Option<Timestamp>)
        ensures
            (i64::MIN <= self.secs + seconds <= i64::MAX) <==> r is Some,
            r matches Some(t) ==> t.secs == self.secs + seconds && t.nanos == self.nanos,
    {
        match self.secs.checked_add(seconds) {
            Some(s) => Some(Timestamp { secs: s, nanos: self.nanos }),
            None => None,
        }
    }
}

/// A rule that decides requests for one resource type.
#[derive(Debug)]
pub struct Policy {
    pub id: String,
    pub name: String,
    pub description: Option<String>,
    pub resource_type: ResourceType,
    pub priority: i32,
    /// Regular expressions, any of which admits a resource id.
    pub allowed_patterns: Vec<String>,
    pub max_ttl_seconds: u64,
    pub auto_approve: bool,
    pub default_scope: ApprovalScope,
}

/// The outcome of evaluating a request against the policies.
#[derive(Debug, PartialEq, Eq)]
pub enum Decision {
    Allow,
    Deny(String),
    PendingApproval(ApprovalScope),
}

/// The mathematical value of a [`Decision`].
pub enum DecisionView {
    Allow,
    Deny(Seq<char>),
    PendingApproval(ApprovalScope),
}

impl View for Decision {
    type V = DecisionView;

    open spec fn view(&self) -> DecisionView {
        match self {
            Decision::Allow => DecisionView::Allow,
            Decision::Deny(m) => DecisionView::Deny(m@),
            Decision::PendingApproval(s) => DecisionView::PendingApproval(*s),
        }
    }
}

/// A request that waits for a human decision.
#[derive(Debug)]
pub struct ApprovalRequest {
    pub id: u128,
    pub request_id: u128,
    pub task_id: Option<u128>,
    pub resource_type: ResourceType,
    pub resource_id: String,
    pub reason: String,
    /// `Pending`, `Approved` or `Denied`.
    pub status: String,
    pub scope: ApprovalScope,
    pub created_at: Timestamp,
    pub expires_at: Timestamp,
}

/// A time-scoped, isolated workspace.
#[derive(Debug)]
pub struct Task {
    pub id: u128,
    pub name: String,
    pub scope_path: String,
    pub status: TaskStatus,
    pub created_at: Timestamp,
    pub expires_at: Timestamp,
}

/// A package installed on behalf of an agent, until it expires.
#[derive(Debug)]
pub struct Lease {
    pub id: u128,
    pub request_id: u128,
    pub task_id: Option<u128>,
    pub status: LeaseStatus,
    pub manager: PackageManager,
    pub package_name: String,
    pub package_version: String,
    pub scope_path: String,
    pub expires_at: Timestamp,
}

/// JWT-style capability tokens for time-bounded, attributed access (planned feature).
#[derive(Debug)]
pub struct CapabilityGrant {
    pub iss: String,
    pub sub: String,
    pub aud: String,
    pub jti: String,
    pub iat: i64,
    pub nbf: i64,
    pub exp: i64,
    pub resource_type: String,
    pub resource_id: String,
    pub scope_path: String,
    pub operation: String,
    pub policy_id: String,
    pub approval_id: Option<String>,
}

/// One entry of the hash-chained audit log.
#[derive(Debug)]
pub struct AuditEvent {
    pub id: u128,
    pub timestamp: Timestamp,
    pub event_type: String,
    pub actor: String,
    pub resource_type: ResourceType,
    pub resource_id: String,
    pub action: String,
    pub status: String,
    /// Key/value annotations; each key occurs once.
    pub metadata: Vec<(String, String)>,
    pub integrity_hash: String,
}

/// An approval that outlives the request that obtained it (scope `Task` or
/// `Permanent`).
#[derive(Debug)]
pub struct ApprovedResource {
    pub id: u128,
    pub resource_type: ResourceType,
    pub resource_id: String,
    pub scope: ApprovalScope,
    pub task_id: Option<u128>,
    pub expires_at: Option<Timestamp>,
}

/// The name under which a resource type is stored and shown.
pub open spec fn resource_type_label(rt: ResourceType) -> Seq<char> {
    match rt {
        ResourceType::Secret => "Secret"@,
        ResourceType::Package => "Package"@,
        ResourceType::Command => "Command"@,
        ResourceType::System => "System"@,
    }
}

/// The name under which an approval scope is stored.
pub open spec fn scope_label(s: ApprovalScope) -> Seq<char> {
    match s {
        ApprovalScope::Once => "Once"@,
        ApprovalScope::Task => "Task"@,
        ApprovalScope::Permanent => "Permanent"@,
    }
}

/// The name under which a task status is stored.
pub open spec fn task_status_label(s: TaskStatus) -> Seq<char> {
    match s {
        TaskStatus::Active => "Active"@,
        TaskStatus::Completed => "Completed"@,
        TaskStatus::Expired => "Expired"@,
    }
}

/// The name under which a lease status is stored.
pub open spec fn lease_status_label(s: LeaseStatus) -> Seq<char> {
    match s {
        LeaseStatus::Active => "Active"@,
        LeaseStatus::Expired => "Expired"@,
        LeaseStatus::Revoked => "Revoked"@,
    }
}

/// The name under which a package manager is stored.
pub open spec fn manager_label(m: PackageManager) -> Seq<char> {
    match m {
        PackageManager::Pip => "Pip"@,
        PackageManager::Npm => "Npm"@,
        PackageManager::Brew => "Brew"@,
    }
}

impl ResourceType {
    /// The name under which this resource type is stored and shown.
    pub fn label(&self) -> (r: String)
        ensures
            r@ == resource_type_label(*self),
    {
        match self {
            ResourceType::Secret => String::from_str("Secret"),
            ResourceType::Package => String::from_str("Package"),
            ResourceType::Command => String::from_str("Command"),
            ResourceType::System => String::from_str("System"),
        }
    }
}

impl ApprovalScope {
    /// The name under which this scope is stored.
    pub fn label(&self) -> (r: String)
        ensures
            r@ == scope_label(*self),
    {
        match self {
            ApprovalScope::Once => String::from_str("Once"),
            ApprovalScope::Task => String::from_str("Task"),
            ApprovalScope::Permanent => String::from_str("Permanent"),
        }
    }
}

impl TaskStatus {
    /// The name under which this status is stored.
    pub fn label(&self) -> (r: String)
        ensures
            r@ == task_status_label(*self),
    {
        match self {
            TaskStatus::Active => String::from_str("Active"),
            TaskStatus::Completed => String::from_str("Completed"),
            TaskStatus::Expired => String::from_str("Expired"),
        }
    }
}

impl LeaseStatus {
    /// The name under which this status is stored.
    pub fn label(&self) -> (r: String)
        ensures
            r@ == lease_status_label(*self),
    {
        match self {
            LeaseStatus::Active => String::from_str("Active"),
            LeaseStatus::Expired => String::from_str("Expired"),
            LeaseStatus::Revoked => String::from_str("Revoked"),
        }
    }
}

impl PackageManager {
    /// The name under which this manager is stored.
    pub fn label(&self) -> (r: String)
        ensures
            r@ == manager_label(*self),
    {
        match self {
            PackageManager::Pip => String::from_str("Pip"),
            PackageManager::Npm => String::from_str("Npm"),
            PackageManager::Brew => String::from_str("Brew"),
        }
    }
}

impl Clone for ApprovalRequest {
    fn clone(&self) -> (r: Self)
        ensures
            r == *self,
    {
        ApprovalRequest {
            id: self.id,
            request_id: self.request_id,
            task_id: self.task_id,
            resource_type: self.resource_type,
            resource_id: self.resource_id.clone(),
            reason: self.reason.clone(),
            status: self.status.clone(),
            scope: self.scope,
            created_at: self.created_at,
            expires_at: self.expires_at,
        }
    }
}

impl Clone for Task {
    fn clone(&self) -> (r: Self)
        ensures
            r == *self,
    {
        Task {
            id: self.id,
            name: self.name.clone(),
            scope_path: self.scope_path.clone(),
            status: self.status,
            created_at: self.created_at,
            expires_at: self.expires_at,
        }
    }
}

} // verus!
