//! The life of a task and of a lease as a state machine: starting a task
//! (scope, record, audit), ending it or letting it expire (scope removed,
//! leases expired, approvals revoked, status set), and expiring a lease.
use vstd::prelude::*;
use crate::daemon::{clamped_ttl, environment_of, new_task, parse_task_id, task_scope};
use crate::flow::{task_ended_message, task_missing_message};
use crate::venv::bin_dir_of;
use crate::encoding::{uuid_from_text, uuid_hyphenated, uuid_to_text};
use crate::flow::{Refusal, RefusalView};
use crate::models::{Lease, ResourceType, Task, TaskStatus, Timestamp};
use crate::requests::AuditRecord;
use crate::text::{join2, pairs_view};

verus! {

/// What a task session is asked to do.
#[derive(Debug)]
pub enum TaskJob {
    /// Start a task with this name under this base directory, for this many
    /// seconds (held between a minute and a day).
    Start { name: String, base: String, ttl_seconds: u64 },
    /// End the task with this id (as the request wrote it).
    End { task_id: String },
    /// Clean up the task with this id, whose time has run out.
    Expire { id: u128 },
    /// Clean up this lease, whose time has run out.
    ExpireLease { lease: Lease },
}

/// Where a task session stands: what it waits for.
#[derive(Debug)]
pub enum TaskPhase {
    Received,
    /// The creation of the new task's venv.
    CreatingScope(Task),
    /// The recording of the new task.
    StoringTask(Task),
    /// The audit of the start.
    AuditingStart(Task),
    /// The task being cleaned up.
    LookingUpTask(u128),
    /// The removal of its scope.
    RemovingScope(u128),
    /// Its leases.
    LookingUpLeases(u128),
    /// The expiry of its leases.
    ExpiringLeases(u128),
    /// The deletion of its approvals.
    DeletingApprovals(u128),
    /// The setting of its status.
    SettingStatus(u128),
    /// The audit of the end.
    AuditingEnd,
    /// The removal of the scope of the expired lease with this id.
    RemovingLeaseScope(u128),
    /// The setting of the lease's status.
    SettingLease,
    Finished,
}

/// What the last action brought back.
#[derive(Debug)]
pub enum TaskEvent {
    Begin,
    /// The outcome of an action, or its error as text.
    Done(Result<(), String>),
    /// The task found, or the store's error.
    TaskFound(Result<Task, String>),
    /// The ids of the task's leases, or the store's error.
    LeasesFound(Result<Vec<u128>, String>),
}

/// The answer of a task session.
#[derive(Debug)]
pub enum TaskReply {
    /// The task started, with its id and scope.
    Started { task_id: String, scope_path: String },
    /// The task ended.
    Ended,
    /// The expired task or lease was cleaned up.
    Cleaned,
}

/// What to do next.
#[derive(Debug)]
pub enum TaskAction {
    /// Create the venv of this scope.
    CreateScope(String),
    /// Record the new task.
    StoreTask(Task),
    /// Append this event to the audit log.
    Audit(AuditRecord),
    /// Look up the task with this id.
    LookupTask(u128),
    /// Remove this scope (a failure is only logged).
    RemoveScope(String),
    /// Look up the leases of the task with this id.
    LookupLeases(u128),
    /// Mark each of these leases expired (failures are only logged).
    ExpireLeases(Vec<u128>),
    /// Delete the approvals granted within the task with this id (a failure
    /// is only logged).
    DeleteApprovals(u128),
    /// Set the status of the task with this id.
    SetTaskStatus(u128, TaskStatus),
    /// Mark the lease with this id expired.
    ExpireLease(u128),
    Reply(TaskReply),
    Fail(Refusal),
}

/// A task or lease on its way through a session.
#[derive(Debug)]
pub struct TaskSession {
    pub job: TaskJob,
    pub phase: TaskPhase,
}

/// What the runner draws for a step: a new id and the time.
#[derive(Debug, Clone, Copy)]
pub struct TaskDraw {
    pub id: u128,
    pub now: Timestamp,
}

/// The status a cleanup leaves a task in.
pub open spec fn final_status(job: TaskJob) -> TaskStatus {
    match job {
        TaskJob::End { .. } => TaskStatus::Completed,
        _ => TaskStatus::Expired,
    }
}

/// `rec` is the audit event of a task action.
pub open spec fn task_audit(rec: AuditRecord, resource_id: Seq<char>, action: Seq<char>, metadata: Seq<(Seq<char>, Seq<char>)>) -> bool {
    &&& rec.event_type@ == "TASK"@
    &&& rec.actor@ == "agent"@
    &&& rec.resource_type == ResourceType::System
    &&& rec.resource_id@ == resource_id
    &&& rec.action@ == action
    &&& rec.status@ == "SUCCESS"@
    &&& pairs_view(rec.metadata@) == metadata
}

/// The session ends with this refusal.
pub open spec fn task_fails(t: TaskSession, a: TaskAction, r: RefusalView) -> bool {
    &&& t.phase is Finished
    &&& a matches TaskAction::Fail(e) && e@ == r
}

/// The event a session waits for in its phase.
pub open spec fn task_accepts(s: TaskSession, e: TaskEvent) -> bool {
    match s.phase {
        TaskPhase::Received => e is Begin,
        TaskPhase::LookingUpTask(_) => e is TaskFound,
        TaskPhase::LookingUpLeases(_) => e is LeasesFound,
        TaskPhase::Finished => false,
        _ => e is Done,
    }
}

/// Whether the draw leaves room for the longest task.
pub open spec fn task_draw_fits(s: TaskSession, d: TaskDraw) -> bool {
    (s.job is Start && s.phase is Received) ==> d.now.secs + 86400 <= i64::MAX
}

/// A cleanup of task `id` begins: the task is looked up.
pub open spec fn to_cleanup(t: TaskSession, a: TaskAction, id: u128) -> bool {
    t.phase == TaskPhase::LookingUpTask(id) && a == TaskAction::LookupTask(id)
}

/// One step of a task session, from `s` on `e` with the draw `d`, to `t` and `a`.
pub open spec fn task_steps_to(s: TaskSession, e: TaskEvent, d: TaskDraw, t: TaskSession, a: TaskAction) -> bool {
    &&& t.job == s.job
    &&& match s.phase {
        TaskPhase::Received => match s.job {
            TaskJob::Start { name, base, ttl_seconds } => {
                &&& t.phase matches TaskPhase::CreatingScope(task) && {
                    &&& task.id == d.id
                    &&& task.name == name
                    &&& task.scope_path@ == task_scope(base@, d.id)
                    &&& task.status == TaskStatus::Active
                    &&& task.created_at == d.now
                    &&& task.expires_at.secs == d.now.secs + clamped_ttl(ttl_seconds)
                    &&& task.expires_at.nanos == d.now.nanos
                }
                &&& a matches TaskAction::CreateScope(p) && p@ == task_scope(base@, d.id)
            },
            TaskJob::End { task_id } => match uuid_from_text(task_id@) {
                None => task_fails(t, a, RefusalView::InvalidArgument("Invalid task_id"@)),
                Some(id) => to_cleanup(t, a, id),
            },
            TaskJob::Expire { id } => to_cleanup(t, a, id),
            TaskJob::ExpireLease { lease } => {
                &&& t.phase == TaskPhase::RemovingLeaseScope(lease.id)
                &&& a matches TaskAction::RemoveScope(p) && p@ == lease.scope_path@
            },
        },
        TaskPhase::CreatingScope(task) => match e {
            TaskEvent::Done(Err(m)) => task_fails(t, a, RefusalView::Internal("Failed to create task venv: "@ + m@)),
            TaskEvent::Done(Ok(())) => t.phase == TaskPhase::StoringTask(task) && a == TaskAction::StoreTask(task),
            _ => true,
        },
        TaskPhase::StoringTask(task) => match e {
            TaskEvent::Done(Err(m)) => task_fails(t, a, RefusalView::Internal("Failed to store task: "@ + m@)),
            TaskEvent::Done(Ok(())) => {
                &&& t.phase == TaskPhase::AuditingStart(task)
                &&& a matches TaskAction::Audit(rec) && task_audit(
                    rec,
                    uuid_hyphenated(task.id),
                    "START"@,
                    seq![("name"@, task.name@)],
                )
            },
            _ => true,
        },
        TaskPhase::AuditingStart(task) => match e {
            TaskEvent::Done(Err(m)) => task_fails(t, a, RefusalView::Internal("Audit failed: "@ + m@)),
            TaskEvent::Done(Ok(())) => {
                &&& t.phase is Finished
                &&& a matches TaskAction::Reply(TaskReply::Started { task_id, scope_path }) && task_id@
                    == uuid_hyphenated(task.id) && scope_path == task.scope_path
            },
            _ => true,
        },
        TaskPhase::LookingUpTask(id) => match e {
            TaskEvent::TaskFound(Err(m)) => task_fails(t, a, RefusalView::NotFound("Task not found: "@ + m@)),
            TaskEvent::TaskFound(Ok(task)) => {
                &&& t.phase == TaskPhase::RemovingScope(id)
                &&& a matches TaskAction::RemoveScope(p) && p == task.scope_path
            },
            _ => true,
        },
        TaskPhase::RemovingScope(id) => t.phase == TaskPhase::LookingUpLeases(id) && a == TaskAction::LookupLeases(id),
        TaskPhase::LookingUpLeases(id) => match e {
            TaskEvent::LeasesFound(Err(m)) => task_fails(
                t,
                a,
                RefusalView::Internal("Failed to fetch task leases: "@ + m@),
            ),
            TaskEvent::LeasesFound(Ok(ids)) => {
                &&& t.phase == TaskPhase::ExpiringLeases(id)
                &&& a matches TaskAction::ExpireLeases(v) && v@ == ids@
            },
            _ => true,
        },
        TaskPhase::ExpiringLeases(id) => t.phase == TaskPhase::DeletingApprovals(id) && a == TaskAction::DeleteApprovals(id),
        TaskPhase::DeletingApprovals(id) => t.phase == TaskPhase::SettingStatus(id) && a == TaskAction::SetTaskStatus(
            id,
            final_status(s.job),
        ),
        TaskPhase::SettingStatus(id) => match e {
            TaskEvent::Done(Err(m)) => task_fails(
                t,
                a,
                RefusalView::Internal("Failed to update task status: "@ + m@),
            ),
            TaskEvent::Done(Ok(())) => match s.job {
                TaskJob::End { task_id } => {
                    &&& t.phase is AuditingEnd
                    &&& a matches TaskAction::Audit(rec) && task_audit(rec, task_id@, "END"@, Seq::empty())
                },
                _ => t.phase is Finished && a == TaskAction::Reply(TaskReply::Cleaned),
            },
            _ => true,
        },
        TaskPhase::AuditingEnd => match e {
            TaskEvent::Done(Err(m)) => task_fails(t, a, RefusalView::Internal("Audit failed: "@ + m@)),
            TaskEvent::Done(Ok(())) => t.phase is Finished && a == TaskAction::Reply(TaskReply::Ended),
            _ => true,
        },
        TaskPhase::RemovingLeaseScope(id) => t.phase is SettingLease && a == TaskAction::ExpireLease(id),
        TaskPhase::SettingLease => match e {
            TaskEvent::Done(Err(m)) => task_fails(
                t,
                a,
                RefusalView::Internal("Failed to update lease status: "@ + m@),
            ),
            TaskEvent::Done(Ok(())) => t.phase is Finished && a == TaskAction::Reply(TaskReply::Cleaned),
            _ => true,
        },
        TaskPhase::Finished => true,
    }
}

fn task_record(resource_id: String, action: &str, metadata: Vec<(String, String)>) -> (r: AuditRecord)
    ensures
        r.event_type@ == "TASK"@,
        r.actor@ == "agent"@,
        r.resource_type == ResourceType::System,
        r.resource_id == resource_id,
        r.action@ == action@,
        r.status@ == "SUCCESS"@,
        r.metadata == metadata,
{
    AuditRecord {
        event_type: String::from_str("TASK"),
        actor: String::from_str("agent"),
        resource_type: ResourceType::System,
        resource_id,
        action: String::from_str(action),
        status: String::from_str("SUCCESS"),
        metadata,
    }
}

fn task_fail(job: TaskJob, e: Refusal) -> (r: (TaskSession, TaskAction))
    ensures
        r.0.job == job,
        r.0.phase is Finished,
        r.1 == TaskAction::Fail(e),
{
    (TaskSession { job, phase: TaskPhase::Finished }, TaskAction::Fail(e))
}

impl TaskSession {
    /// A session for `job` that has not begun.
    pub fn new(job: TaskJob) -> (r: Self)
        ensures
            r.job == job,
            r.phase is Received,
    {
        TaskSession { job, phase: TaskPhase::Received }
    }

    /// Whether the session has ended.
    pub fn is_finished(&self) -> (r: bool)
        ensures
            r == self.phase is Finished,
    {
        match self.phase {
            TaskPhase::Finished => true,
            _ => false,
        }
    }

    /// The next step: see [`task_steps_to`].
    pub fn step(self, event: TaskEvent, draw: TaskDraw) -> (r: (TaskSession, TaskAction))
        requires
            task_accepts(self, event),
            task_draw_fits(self, draw),
        ensures
            task_steps_to(self, event, draw, r.0, r.1),
    {
        let TaskSession { job, phase } = self;
        match phase {
            TaskPhase::Received => match &job {
                TaskJob::Start { name, base, ttl_seconds } => {
                    let task = new_task(draw.id, name.clone(), base.as_str(), *ttl_seconds, draw.now).unwrap();
                    let scope = task.scope_path.clone();
                    (TaskSession { job, phase: TaskPhase::CreatingScope(task) }, TaskAction::CreateScope(scope))
                },
                TaskJob::End { task_id } => match parse_task_id(task_id.as_str()) {
                    Err(e) => task_fail(job, e),
                    Ok(id) => (TaskSession { job, phase: TaskPhase::LookingUpTask(id) }, TaskAction::LookupTask(id)),
                },
                TaskJob::Expire { id } => {
                    let id = *id;
                    (TaskSession { job, phase: TaskPhase::LookingUpTask(id) }, TaskAction::LookupTask(id))
                },
                TaskJob::ExpireLease { lease } => {
                    let p = lease.scope_path.clone();
                    let id = lease.id;
                    (TaskSession { job, phase: TaskPhase::RemovingLeaseScope(id) }, TaskAction::RemoveScope(p))
                },
            },
            TaskPhase::CreatingScope(task) => match event {
                TaskEvent::Done(Ok(())) => {
                    let copy = task.clone();
                    (TaskSession { job, phase: TaskPhase::StoringTask(task) }, TaskAction::StoreTask(copy))
                },
                TaskEvent::Done(Err(m)) => task_fail(
                    job,
                    Refusal::Internal(join2("Failed to create task venv: ", m.as_str())),
                ),
                _ => {
                    assert(false);
                    task_fail(job, Refusal::Internal(String::new()))
                },
            },
            TaskPhase::StoringTask(task) => match event {
                TaskEvent::Done(Ok(())) => {
                    let metadata = vec![(String::from_str("name"), task.name.clone())];
                    assert(pairs_view(metadata@) =~= seq![("name"@, task.name@)]);
                    let rec = task_record(uuid_to_text(task.id), "START", metadata);
                    (TaskSession { job, phase: TaskPhase::AuditingStart(task) }, TaskAction::Audit(rec))
                },
                TaskEvent::Done(Err(m)) => task_fail(job, Refusal::Internal(join2("Failed to store task: ", m.as_str()))),
                _ => {
                    assert(false);
                    task_fail(job, Refusal::Internal(String::new()))
                },
            },
            TaskPhase::AuditingStart(task) => match event {
                TaskEvent::Done(Ok(())) => {
                    let reply = TaskReply::Started { task_id: uuid_to_text(task.id), scope_path: task.scope_path };
                    (TaskSession { job, phase: TaskPhase::Finished }, TaskAction::Reply(reply))
                },
                TaskEvent::Done(Err(m)) => task_fail(job, Refusal::Internal(join2("Audit failed: ", m.as_str()))),
                _ => {
                    assert(false);
                    task_fail(job, Refusal::Internal(String::new()))
                },
            },
            TaskPhase::LookingUpTask(id) => match event {
                TaskEvent::TaskFound(Ok(task)) => (
                    TaskSession { job, phase: TaskPhase::RemovingScope(id) },
                    TaskAction::RemoveScope(task.scope_path),
                ),
                TaskEvent::TaskFound(Err(m)) => task_fail(job, Refusal::NotFound(join2("Task not found: ", m.as_str()))),
                _ => {
                    assert(false);
                    task_fail(job, Refusal::Internal(String::new()))
                },
            },
            TaskPhase::RemovingScope(id) => (
                TaskSession { job, phase: TaskPhase::LookingUpLeases(id) },
                TaskAction::LookupLeases(id),
            ),
            TaskPhase::LookingUpLeases(id) => match event {
                TaskEvent::LeasesFound(Ok(ids)) => (
                    TaskSession { job, phase: TaskPhase::ExpiringLeases(id) },
                    TaskAction::ExpireLeases(ids),
                ),
                TaskEvent::LeasesFound(Err(m)) => task_fail(
                    job,
                    Refusal::Internal(join2("Failed to fetch task leases: ", m.as_str())),
                ),
                _ => {
                    assert(false);
                    task_fail(job, Refusal::Internal(String::new()))
                },
            },
            TaskPhase::ExpiringLeases(id) => (
                TaskSession { job, phase: TaskPhase::DeletingApprovals(id) },
                TaskAction::DeleteApprovals(id),
            ),
            TaskPhase::DeletingApprovals(id) => {
                let status = match &job {
                    TaskJob::End { .. } => TaskStatus::Completed,
                    _ => TaskStatus::Expired,
                };
                (TaskSession { job, phase: TaskPhase::SettingStatus(id) }, TaskAction::SetTaskStatus(id, status))
            },
            TaskPhase::SettingStatus(_) => match event {
                TaskEvent::Done(Ok(())) => match &job {
                    TaskJob::End { task_id } => {
                        let rec = task_record(task_id.clone(), "END", Vec::new());
                        assert(pairs_view(rec.metadata@) =~= Seq::<(Seq<char>, Seq<char>)>::empty());
                        (TaskSession { job, phase: TaskPhase::AuditingEnd }, TaskAction::Audit(rec))
                    },
                    _ => (TaskSession { job, phase: TaskPhase::Finished }, TaskAction::Reply(TaskReply::Cleaned)),
                },
                TaskEvent::Done(Err(m)) => task_fail(
                    job,
                    Refusal::Internal(join2("Failed to update task status: ", m.as_str())),
                ),
                _ => {
                    assert(false);
                    task_fail(job, Refusal::Internal(String::new()))
                },
            },
            TaskPhase::AuditingEnd => match event {
                TaskEvent::Done(Ok(())) => (TaskSession { job, phase: TaskPhase::Finished }, TaskAction::Reply(TaskReply::Ended)),
                TaskEvent::Done(Err(m)) => task_fail(job, Refusal::Internal(join2("Audit failed: ", m.as_str()))),
                _ => {
                    assert(false);
                    task_fail(job, Refusal::Internal(String::new()))
                },
            },
            TaskPhase::RemovingLeaseScope(id) => (
                TaskSession { job, phase: TaskPhase::SettingLease },
                TaskAction::ExpireLease(id),
            ),
            TaskPhase::SettingLease => match event {
                TaskEvent::Done(Ok(())) => (TaskSession { job, phase: TaskPhase::Finished }, TaskAction::Reply(TaskReply::Cleaned)),
                TaskEvent::Done(Err(m)) => task_fail(
                    job,
                    Refusal::Internal(join2("Failed to update lease status: ", m.as_str())),
                ),
                _ => {
                    assert(false);
                    task_fail(job, Refusal::Internal(String::new()))
                },
            },
            TaskPhase::Finished => {
                assert(false);
                task_fail(job, Refusal::Internal(String::new()))
            },
        }
    }
}

/// How many steps a task session in this phase has left at most.
pub open spec fn task_steps_left(p: TaskPhase) -> nat {
    match p {
        TaskPhase::Received => 8,
        TaskPhase::LookingUpTask(_) => 7,
        TaskPhase::RemovingScope(_) => 6,
        TaskPhase::LookingUpLeases(_) => 5,
        TaskPhase::ExpiringLeases(_) => 4,
        TaskPhase::DeletingApprovals(_) => 3,
        TaskPhase::CreatingScope(_) => 3,
        TaskPhase::SettingStatus(_) => 2,
        TaskPhase::StoringTask(_) => 2,
        TaskPhase::RemovingLeaseScope(_) => 2,
        TaskPhase::AuditingEnd => 1,
        TaskPhase::AuditingStart(_) => 1,
        TaskPhase::SettingLease => 1,
        TaskPhase::Finished => 0,
    }
}

/// Every task session ends, within eight steps.
pub proof fn lemma_task_sessions_end(s: TaskSession, e: TaskEvent, d: TaskDraw, t: TaskSession, a: TaskAction)
    requires
        task_accepts(s, e),
        task_steps_to(s, e, d, t, a),
    ensures
        task_steps_left(t.phase) < task_steps_left(s.phase),
        t.phase is Finished <==> (a is Reply || a is Fail),
{
}

/// A task is torn down in order: its status is set (to "Completed" when it
/// is ended, to "Expired" when its time ran out) only once its approvals have
/// been deleted, which happens only once its leases (exactly those found) have
/// been expired, which happens only once its scope has been removed.
pub proof fn lemma_teardown_in_order(s: TaskSession, e: TaskEvent, d: TaskDraw, t: TaskSession, a: TaskAction)
    requires
        task_accepts(s, e),
        task_steps_to(s, e, d, t, a),
    ensures
        a matches TaskAction::SetTaskStatus(id, st) ==> s.phase == TaskPhase::DeletingApprovals(id) && st
            == final_status(s.job),
        a matches TaskAction::DeleteApprovals(id) ==> s.phase == TaskPhase::ExpiringLeases(id),
        a matches TaskAction::ExpireLeases(v) ==> s.phase is LookingUpLeases && (e matches TaskEvent::LeasesFound(
            Ok(ids),
        ) && v@ == ids@),
        a matches TaskAction::LookupLeases(id) ==> s.phase == TaskPhase::RemovingScope(id),
{
}

/// A task's environment lives as long as the task: the task a start makes is
/// active, and its environment is its scope `<base>/task-<id>` with that
/// scope's executables; once ended (or expired) the same task is refused as
/// no longer active, and an id with no task as not found.
pub proof fn lemma_task_environment_lives_with_the_task(s: TaskSession, d: TaskDraw, t: TaskSession, a: TaskAction)
    requires
        s.job is Start,
        s.phase is Received,
        task_steps_to(s, TaskEvent::Begin, d, t, a),
    ensures
        t.phase is CreatingScope,
        environment_of(Some(t.phase->CreatingScope_0)) == Ok::<(Seq<char>, Seq<char>), RefusalView>((
            bin_dir_of(task_scope(s.job->Start_base@, d.id)),
            task_scope(s.job->Start_base@, d.id),
        )),
        environment_of(Some(Task { status: TaskStatus::Completed, ..t.phase->CreatingScope_0 }))
            == Err::<(Seq<char>, Seq<char>), RefusalView>(RefusalView::FailedPrecondition(task_ended_message())),
        environment_of(Some(Task { status: TaskStatus::Expired, ..t.phase->CreatingScope_0 }))
            == Err::<(Seq<char>, Seq<char>), RefusalView>(RefusalView::FailedPrecondition(task_ended_message())),
        environment_of(None) == Err::<(Seq<char>, Seq<char>), RefusalView>(
            RefusalView::FailedPrecondition(task_missing_message()),
        ),
{
}

} // verus!
