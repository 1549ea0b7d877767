//! The approval ledger and the record queries of the daemon's store: which
//! approvals are pending, what an approval grants beyond its own request, and
//! which grants admit a later request.
use vstd::prelude::*;
use crate::models::{
    before, ApprovalRequest, AuditEvent, ApprovalScope, ApprovedResource, Lease, LeaseStatus, ResourceType,
    Task, TaskStatus, Timestamp,
};
use crate::error::{LeashError, LeashErrorView};
use crate::text::same_text;

verus! {

/// The status of an approval request that waits for a human.
pub open spec fn pending_status() -> Seq<char> {
    "Pending"@
}

/// The status of a granted approval request.
pub open spec fn approved_status() -> Seq<char> {
    "Approved"@
}

/// The status of a refused approval request.
pub open spec fn denied_status() -> Seq<char> {
    "Denied"@
}

/// The scope an approval takes effect with: the approver's choice where there
/// is one, the request's own scope otherwise.
pub open spec fn effective_scope(req: ApprovalRequest, override_scope: Option<ApprovalScope>) -> ApprovalScope {
    match override_scope {
        Some(s) => s,
        None => req.scope,
    }
}

/// Whether a grant admits a request for `resource_id` of `resource_type`, made
/// within task `task_id` (or outside any task) at `now`: the grant is for that
/// resource, has not expired, and is permanent or, within a task, was granted
/// for that task.
pub open spec fn grant_admits(
    g: ApprovedResource,
    resource_type: ResourceType,
    resource_id: Seq<char>,
    task_id: Option<u128>,
    now: Timestamp,
) -> bool {
    &&& g.resource_type == resource_type
    &&& g.resource_id@ == resource_id
    &&& match g.expires_at {
        Some(t) => before(now, t),
        None => true,
    }
    &&& match task_id {
        Some(tid) => g.scope == ApprovalScope::Permanent || (g.scope == ApprovalScope::Task && g.task_id
            == Some(tid)),
        None => g.scope == ApprovalScope::Permanent,
    }
}

/// A grant records the approval of `req` in `scope`: for the request's
/// resource and task, expiring with the request.
pub open spec fn records_approval(g: ApprovedResource, req: ApprovalRequest, scope: ApprovalScope) -> bool {
    &&& g.resource_type == req.resource_type
    &&& g.resource_id@ == req.resource_id@
    &&& g.scope == scope
    &&& g.task_id == req.task_id
    &&& g.expires_at == Some(req.expires_at)
}

/// Whether some grant admits the request.
pub open spec fn approved_by(
    grants: Seq<ApprovedResource>,
    resource_type: ResourceType,
    resource_id: Seq<char>,
    task_id: Option<u128>,
    now: Timestamp,
) -> bool {
    exists|i: int| 0 <= i < grants.len() && grant_admits(#[trigger] grants[i], resource_type, resource_id, task_id, now)
}

fn option_eq(a: Option<u128>, b: Option<u128>) -> (r: bool)
    ensures
        r == (a == b),
{
    match (a, b) {
        (Some(x), Some(y)) => x == y,
        (None, None) => true,
        _ => false,
    }
}

/// Whether a grant admits a request for `resource_id` of `resource_type`,
/// made within task `task_id` (or outside any task) at `now`.
pub fn grant_applies(
    g: &ApprovedResource,
    resource_type: ResourceType,
    resource_id: &str,
    task_id: Option<u128>,
    now: Timestamp,
) -> (r: bool)
    ensures
        r == grant_admits(*g, resource_type, resource_id@, task_id, now),
{
    if g.resource_type != resource_type || !same_text(g.resource_id.as_str(), resource_id) {
        return false;
    }
    let live = match g.expires_at {
        Some(t) => now.is_before(&t),
        None => true,
    };
    if !live {
        return false;
    }
    match task_id {
        Some(tid) => g.scope == ApprovalScope::Permanent || (g.scope == ApprovalScope::Task && option_eq(
            g.task_id,
            Some(tid),
        )),
        None => g.scope == ApprovalScope::Permanent,
    }
}

/// Whether a request for `resource_id` of `resource_type`, made within task
/// `task_id` (or outside any task) at `now`, is approved in advance by one of
/// the grants.
pub fn check_approval(
    grants: &Vec<ApprovedResource>,
    resource_type: ResourceType,
    resource_id: &str,
    task_id: Option<u128>,
    now: Timestamp,
) -> (r: bool)
    ensures
        r == approved_by(grants@, resource_type, resource_id@, task_id, now),
{
    let n = grants.len();
    let mut i: usize = 0;
    while i < n
        invariant
            n == grants@.len(),
            i <= n,
            forall|j: int| 0 <= j < i ==> !grant_admits(#[trigger] grants@[j], resource_type, resource_id@, task_id, now),
        decreases n - i,
    {
        if grant_applies(&grants[i], resource_type, resource_id, task_id, now) {
            return true;
        }
        i = i + 1;
    }
    false
}

/// What setting the status of `req` to `status` grants beyond the request
/// itself: where the status is "Approved" and the effective scope (the
/// approver's `override_scope`, or the request's) is not `Once`, a grant of that
/// scope for the request's resource and task, expiring with the request,
/// under the id `grant_id`; nothing otherwise.
pub fn grant_for(
    req: &ApprovalRequest,
    status: &str,
    override_scope: Option<ApprovalScope>,
    grant_id: u128,
) -> (r: Option<ApprovedResource>)
    ensures
        r is Some <==> (status@ == approved_status() && effective_scope(*req, override_scope)
            != ApprovalScope::Once),
        r matches Some(g) ==> g.id == grant_id && records_approval(g, *req, effective_scope(*req, override_scope)),
{
    if !same_text(status, "Approved") {
        return None;
    }
    let scope = match override_scope {
        Some(s) => s,
        None => req.scope,
    };
    if scope == ApprovalScope::Once {
        return None;
    }
    Some(
        ApprovedResource {
            id: grant_id,
            resource_type: req.resource_type,
            resource_id: req.resource_id.clone(),
            scope,
            task_id: req.task_id,
            expires_at: Some(req.expires_at),
        },
    )
}

/// `b` is `a` with only its status changed, to `status`.
pub open spec fn restatused(a: ApprovalRequest, b: ApprovalRequest, status: Seq<char>) -> bool {
    &&& b.id == a.id
    &&& b.request_id == a.request_id
    &&& b.task_id == a.task_id
    &&& b.resource_type == a.resource_type
    &&& b.resource_id == a.resource_id
    &&& b.reason == a.reason
    &&& b.status@ == status
    &&& b.scope == a.scope
    &&& b.created_at == a.created_at
    &&& b.expires_at == a.expires_at
}

/// The error of an approval that is not found while its approval is recorded.
pub open spec fn approval_missing_message() -> Seq<char> {
    "Approval request not found during update: no rows returned by a query that expected to return at least one row"@
}

/// Records a human's decision on approval `id`: every approval with that id
/// gets `status`; where the status is "Approved" and the effective scope (the
/// approver's `override_scope`, or the request's) is not `Once`, a grant of
/// that scope, under the id `grant_id`, is added for the first such approval.
/// An approval to be approved that does not exist is refused (not found) and
/// nothing changes; a denial of one that does not exist changes nothing.
pub fn record_decision(
    requests: &mut Vec<ApprovalRequest>,
    grants: &mut Vec<ApprovedResource>,
    id: u128,
    status: &str,
    override_scope: Option<ApprovalScope>,
    grant_id: u128,
) -> (r: Result<(), LeashError>)
    ensures
        final(requests)@.len() == old(requests)@.len(),
        forall|j: int| 0 <= j < old(requests)@.len() ==> if old(requests)@[j].id == id {
            restatused(old(requests)@[j], #[trigger] final(requests)@[j], status@)
        } else {
            final(requests)@[j] == old(requests)@[j]
        },
        (forall|j: int| 0 <= j < old(requests)@.len() ==> old(requests)@[j].id != id) ==> {
            &&& final(grants)@ == old(grants)@
            &&& status@ == approved_status() ==> (r matches Err(e) && e@ == LeashErrorView::NotFound(
                approval_missing_message(),
            ))
            &&& status@ != approved_status() ==> r is Ok
        },
        forall|i: int| 0 <= i < old(requests)@.len() && old(requests)@[i].id == id && (forall|j: int|
            0 <= j < i ==> old(requests)@[j].id != id) ==> {
            let q = #[trigger] old(requests)@[i];
            &&& r is Ok
            &&& if status@ == approved_status() && effective_scope(q, override_scope) != ApprovalScope::Once {
                exists|g: ApprovedResource| {
                    &&& final(grants)@ == old(grants)@.push(g)
                    &&& g.id == grant_id
                    &&& records_approval(g, q, effective_scope(q, override_scope))
                }
            } else {
                final(grants)@ == old(grants)@
            }
        },
{
    let first = find_by_id(requests, id);
    let n = requests.len();
    let mut k: usize = 0;
    while k < n
        invariant
            n == old(requests)@.len(),
            requests@.len() == n,
            k <= n,
            forall|j: int| 0 <= j < k ==> if old(requests)@[j].id == id {
                restatused(old(requests)@[j], #[trigger] requests@[j], status@)
            } else {
                requests@[j] == old(requests)@[j]
            },
            forall|j: int| k <= j < n ==> #[trigger] requests@[j] == old(requests)@[j],
        decreases n - k,
    {
        if requests[k].id == id {
            let mut q = requests[k].clone();
            q.status = String::from_str(status);
            requests.set(k, q);
        }
        k = k + 1;
    }
    match first {
        None => {
            if same_text(status, "Approved") {
                Err(
                    LeashError::NotFound(
                        String::from_str(
                            "Approval request not found during update: no rows returned by a query that expected to return at least one row",
                        ),
                    ),
                )
            } else {
                Ok(())
            }
        },
        Some(i) => {
            let q = requests[i].clone();
            proof {
                assert forall|i2: int| 0 <= i2 < old(requests)@.len() && old(requests)@[i2].id == id && (forall|j: int|
                    0 <= j < i2 ==> old(requests)@[j].id != id) implies i2 == i as int by {
                    if i2 < i {
                    } else if i2 > i {
                        assert(old(requests)@[i as int].id == id);
                    }
                }
            }
            match grant_for(&q, status, override_scope, grant_id) {
                Some(g) => {
                    grants.push(g);
                },
                None => {},
            }
            Ok(())
        },
    }
}

/// Approving a request with a lasting scope makes later requests for the
/// same resource approved in advance, until the approval expires: every
/// later request for a permanent approval, those of the same task for a task
/// approval.
pub proof fn lemma_approval_admits_later_requests(
    grants: Seq<ApprovedResource>,
    g: ApprovedResource,
    req: ApprovalRequest,
    scope: ApprovalScope,
    task_id: Option<u128>,
    now: Timestamp,
)
    requires
        records_approval(g, req, scope),
        before(now, req.expires_at),
        scope == ApprovalScope::Permanent || (scope == ApprovalScope::Task && task_id is Some && task_id
            == req.task_id),
    ensures
        approved_by(grants.push(g), req.resource_type, req.resource_id@, task_id, now),
{
    let all = grants.push(g);
    assert(all[grants.len() as int] == g);
    assert(grant_admits(all[grants.len() as int], req.resource_type, req.resource_id@, task_id, now));
}

/// The grants that remain when a task ends: all but those granted within it.
pub fn revoke_task_grants(grants: Vec<ApprovedResource>, task_id: u128) -> (r: Vec<ApprovedResource>)
    ensures
        r@ == grants@.filter(|g: ApprovedResource| g.task_id != Some(task_id)),
{
    let ghost orig = grants@;
    let ghost keep = |g: ApprovedResource| g.task_id != Some(task_id);
    let mut rest = grants;
    let mut r: Vec<ApprovedResource> = Vec::new();
    let n = rest.len();
    let mut t: usize = 0;
    while t < n
        invariant
            n == orig.len(),
            t <= n,
            rest@ == orig.skip(t as int),
            keep == (|g: ApprovedResource| g.task_id != Some(task_id)),
            r@ == orig.take(t as int).filter(keep),
        decreases n - t,
    {
        let g = rest.remove(0);
        assert(g == orig[t as int]);
        proof {
            assert(orig.take(t + 1) =~= orig.take(t as int).push(g));
            orig.take(t as int).lemma_filter_push(g, keep);
        }
        let ghost gv = g;
        if !option_eq(g.task_id, Some(task_id)) {
            r.push(g);
            assert(keep(gv));
        } else {
            assert(!keep(gv));
        }
        assert(r@ == orig.take(t + 1).filter(keep));
        proof {
            assert(rest@ =~= orig.skip(t + 1));
        }
        t = t + 1;
    }
    proof {
        assert(orig.take(n as int) =~= orig);
    }
    r
}

/// Whether the request's status is "Pending".
pub open spec fn is_pending(req: ApprovalRequest) -> bool {
    req.status@ == pending_status()
}

/// The requests that still wait for a human, in stored order.
pub fn pending_approvals(requests: &Vec<ApprovalRequest>) -> (r: Vec<ApprovalRequest>)
    ensures
        r@ == requests@.filter(|q: ApprovalRequest| is_pending(q)),
{
    let ghost p = |q: ApprovalRequest| is_pending(q);
    let mut r: Vec<ApprovalRequest> = Vec::new();
    let n = requests.len();
    let mut i: usize = 0;
    while i < n
        invariant
            n == requests@.len(),
            i <= n,
            p == (|q: ApprovalRequest| is_pending(q)),
            r@ == requests@.take(i as int).filter(p),
        decreases n - i,
    {
        let q = &requests[i];
        proof {
            assert(requests@.take(i + 1) =~= requests@.take(i as int).push(*q));
            requests@.take(i as int).lemma_filter_push(*q, p);
        }
        if same_text(q.status.as_str(), "Pending") {
            r.push(q.clone());
            assert(p(*q));
        } else {
            assert(!p(*q));
        }
        assert(r@ == requests@.take(i + 1).filter(p));
        i = i + 1;
    }
    proof {
        assert(requests@.take(n as int) =~= requests@);
    }
    r
}

/// The position of the first request with the given request id, if any.
pub fn find_by_request_id(requests: &Vec<ApprovalRequest>, request_id: u128) -> (r: Option<usize>)
    ensures
        r matches Some(i) ==> i < requests@.len() && requests@[i as int].request_id == request_id
            && forall|j: int| 0 <= j < i ==> requests@[j].request_id != request_id,
        r is None ==> forall|j: int| 0 <= j < requests@.len() ==> requests@[j].request_id != request_id,
{
    let n = requests.len();
    let mut i: usize = 0;
    while i < n
        invariant
            n == requests@.len(),
            i <= n,
            forall|j: int| 0 <= j < i ==> requests@[j].request_id != request_id,
        decreases n - i,
    {
        if requests[i].request_id == request_id {
            return Some(i);
        }
        i = i + 1;
    }
    None
}

/// The position of the first request with the given approval id, if any.
pub fn find_by_id(requests: &Vec<ApprovalRequest>, id: u128) -> (r: Option<usize>)
    ensures
        r matches Some(i) ==> i < requests@.len() && requests@[i as int].id == id && forall|j: int|
            0 <= j < i ==> requests@[j].id != id,
        r is None ==> forall|j: int| 0 <= j < requests@.len() ==> requests@[j].id != id,
{
    let n = requests.len();
    let mut i: usize = 0;
    while i < n
        invariant
            n == requests@.len(),
            i <= n,
            forall|j: int| 0 <= j < i ==> requests@[j].id != id,
        decreases n - i,
    {
        if requests[i].id == id {
            return Some(i);
        }
        i = i + 1;
    }
    None
}

/// Whether an active task has passed its expiry at `now`.
pub open spec fn task_overdue(t: Task, now: Timestamp) -> bool {
    t.status == TaskStatus::Active && before(t.expires_at, now)
}

/// The positions, in order, of the active tasks whose expiry lies before
/// `now`.
pub fn expired_tasks(tasks: &Vec<Task>, now: Timestamp) -> (r: Vec<usize>)
    ensures
        forall|k: int| 0 <= k < r@.len() ==> (r@[k] as int) < tasks@.len() && task_overdue(tasks@[r@[k] as int], now),
        forall|j: int| 0 <= j < tasks@.len() && task_overdue(#[trigger] tasks@[j], now) ==> r@.contains(j as usize),
        forall|a: int, b: int| 0 <= a < b < r@.len() ==> r@[a] < r@[b],
{
    let mut r: Vec<usize> = Vec::new();
    let n = tasks.len();
    let mut i: usize = 0;
    while i < n
        invariant
            n == tasks@.len(),
            i <= n,
            forall|k: int| 0 <= k < r@.len() ==> (r@[k] as int) < i && task_overdue(tasks@[r@[k] as int], now),
            forall|j: int| 0 <= j < i && task_overdue(#[trigger] tasks@[j], now) ==> r@.contains(j as usize),
            forall|a: int, b: int| 0 <= a < b < r@.len() ==> r@[a] < r@[b],
        decreases n - i,
    {
        let ghost prev = r@;
        let t = &tasks[i];
        if t.status == TaskStatus::Active && t.expires_at.is_before(&now) {
            r.push(i);
            assert forall|j: int| 0 <= j < i && task_overdue(#[trigger] tasks@[j], now) implies r@.contains(j as usize) by {
                let w = choose|w: int| 0 <= w < prev.len() && prev[w] == j as usize;
                assert(r@[w] == prev[w]);
            }
            assert(r@[r@.len() - 1] == i);
        }
        i = i + 1;
    }
    r
}

/// Whether a lease is due for clean-up on its own at `now`: active, outside
/// any task, and past its expiry.
pub open spec fn lease_overdue(l: Lease, now: Timestamp) -> bool {
    l.status == LeaseStatus::Active && l.task_id is None && before(l.expires_at, now)
}

/// The positions, in order, of the active stand-alone leases whose expiry
/// lies before `now`.
pub fn expired_leases(leases: &Vec<Lease>, now: Timestamp) -> (r: Vec<usize>)
    ensures
        forall|k: int| 0 <= k < r@.len() ==> (r@[k] as int) < leases@.len() && lease_overdue(leases@[r@[k] as int], now),
        forall|j: int| 0 <= j < leases@.len() && lease_overdue(#[trigger] leases@[j], now) ==> r@.contains(j as usize),
        forall|a: int, b: int| 0 <= a < b < r@.len() ==> r@[a] < r@[b],
{
    let mut r: Vec<usize> = Vec::new();
    let n = leases.len();
    let mut i: usize = 0;
    while i < n
        invariant
            n == leases@.len(),
            i <= n,
            forall|k: int| 0 <= k < r@.len() ==> (r@[k] as int) < i && lease_overdue(leases@[r@[k] as int], now),
            forall|j: int| 0 <= j < i && lease_overdue(#[trigger] leases@[j], now) ==> r@.contains(j as usize),
            forall|a: int, b: int| 0 <= a < b < r@.len() ==> r@[a] < r@[b],
        decreases n - i,
    {
        let ghost prev = r@;
        let l = &leases[i];
        if l.status == LeaseStatus::Active && l.task_id.is_none() && l.expires_at.is_before(&now) {
            r.push(i);
            assert forall|j: int| 0 <= j < i && lease_overdue(#[trigger] leases@[j], now) implies r@.contains(j as usize) by {
                let w = choose|w: int| 0 <= w < prev.len() && prev[w] == j as usize;
                assert(r@[w] == prev[w]);
            }
            assert(r@[r@.len() - 1] == i);
        }
        i = i + 1;
    }
    r
}

/// The positions, in order, of the leases taken within task `task_id`.
pub fn leases_of_task(leases: &Vec<Lease>, task_id: u128) -> (r: Vec<usize>)
    ensures
        forall|k: int| 0 <= k < r@.len() ==> (r@[k] as int) < leases@.len() && leases@[r@[k] as int].task_id == Some(task_id),
        forall|j: int| 0 <= j < leases@.len() && (#[trigger] leases@[j]).task_id == Some(task_id) ==> r@.contains(j as usize),
        forall|a: int, b: int| 0 <= a < b < r@.len() ==> r@[a] < r@[b],
{
    let mut r: Vec<usize> = Vec::new();
    let n = leases.len();
    let mut i: usize = 0;
    while i < n
        invariant
            n == leases@.len(),
            i <= n,
            forall|k: int| 0 <= k < r@.len() ==> (r@[k] as int) < i && leases@[r@[k] as int].task_id == Some(task_id),
            forall|j: int| 0 <= j < i && (#[trigger] leases@[j]).task_id == Some(task_id) ==> r@.contains(j as usize),
            forall|a: int, b: int| 0 <= a < b < r@.len() ==> r@[a] < r@[b],
        decreases n - i,
    {
        let ghost prev = r@;
        if option_eq(leases[i].task_id, Some(task_id)) {
            r.push(i);
            assert forall|j: int| 0 <= j < i && (#[trigger] leases@[j]).task_id == Some(task_id) implies r@.contains(j as usize) by {
                let w = choose|w: int| 0 <= w < prev.len() && prev[w] == j as usize;
                assert(r@[w] == prev[w]);
            }
            assert(r@[r@.len() - 1] == i);
        }
        i = i + 1;
    }
    r
}

/// A permanent approval admits every later request for the same resource,
/// within any task or outside all tasks, until the approval expires.
pub proof fn lemma_permanent_approval_admits_every_request(
    g: ApprovedResource,
    req: ApprovalRequest,
    task_id: Option<u128>,
    now: Timestamp,
)
    requires
        records_approval(g, req, ApprovalScope::Permanent),
        before(now, req.expires_at),
    ensures
        grant_admits(g, req.resource_type, req.resource_id@, task_id, now),
{
}

/// A task-scoped approval admits later requests for the same resource made
/// within the task it was granted in, until it expires, and no others: not
/// those of another task, nor those made outside all tasks.
pub proof fn lemma_task_approval_admits_only_its_task(
    g: ApprovedResource,
    req: ApprovalRequest,
    task_id: Option<u128>,
    now: Timestamp,
)
    requires
        records_approval(g, req, ApprovalScope::Task),
        before(now, req.expires_at),
    ensures
        grant_admits(g, req.resource_type, req.resource_id@, task_id, now) <==> (task_id is Some
            && task_id == req.task_id),
{
}

/// Approvals lapse: once its expiry has come, a grant admits nothing.
pub proof fn lemma_expired_grant_admits_nothing(
    g: ApprovedResource,
    resource_type: ResourceType,
    resource_id: Seq<char>,
    task_id: Option<u128>,
    now: Timestamp,
)
    requires
        g.expires_at matches Some(t) && !before(now, t),
    ensures
        !grant_admits(g, resource_type, resource_id, task_id, now),
{
}

/// Ending a task revokes what was granted within it: afterwards a request made
/// within that task is approved in advance only by a permanent approval
/// granted within another task or outside all tasks.
pub proof fn lemma_task_end_revokes_its_grants(
    grants: Seq<ApprovedResource>,
    task_id: u128,
    resource_type: ResourceType,
    resource_id: Seq<char>,
    now: Timestamp,
)
    ensures
        approved_by(
            grants.filter(|g: ApprovedResource| g.task_id != Some(task_id)),
            resource_type,
            resource_id,
            Some(task_id),
            now,
        ) <==> exists|i: int|
            0 <= i < grants.len() && (#[trigger] grants[i]).task_id != Some(task_id) && grants[i].scope
                == ApprovalScope::Permanent && grant_admits(grants[i], resource_type, resource_id, Some(task_id), now),
{
    let keep = |g: ApprovedResource| g.task_id != Some(task_id);
    let kept = grants.filter(keep);
    if approved_by(kept, resource_type, resource_id, Some(task_id), now) {
        let j = choose|j: int| 0 <= j < kept.len() && grant_admits(#[trigger] kept[j], resource_type, resource_id, Some(task_id), now);
        let g = kept[j];
        grants.lemma_filter_pred(keep, j);
        assert(kept.contains(g));
        grants.lemma_filter_contains_rev(keep, g);
        let i = choose|i: int| 0 <= i < grants.len() && grants[i] == g;
        assert(grants[i].task_id != Some(task_id));
    }
    if exists|i: int|
        0 <= i < grants.len() && (#[trigger] grants[i]).task_id != Some(task_id) && grants[i].scope
            == ApprovalScope::Permanent && grant_admits(grants[i], resource_type, resource_id, Some(task_id), now) {
        let i = choose|i: int|
            0 <= i < grants.len() && (#[trigger] grants[i]).task_id != Some(task_id) && grants[i].scope
                == ApprovalScope::Permanent && grant_admits(grants[i], resource_type, resource_id, Some(task_id), now);
        grants.lemma_filter_contains(keep, i);
        let j = choose|j: int| 0 <= j < kept.len() && kept[j] == grants[i];
        assert(grant_admits(kept[j], resource_type, resource_id, Some(task_id), now));
    }
}

/// Whether an audit event falls within the queried window (both bounds
/// included; a missing bound does not limit).
pub open spec fn in_window(e: AuditEvent, start: Option<Timestamp>, end: Option<Timestamp>) -> bool {
    &&& match start {
        Some(s) => !before(e.timestamp, s),
        None => true,
    }
    &&& match end {
        Some(t) => !before(t, e.timestamp),
        None => true,
    }
}

fn within(e: &AuditEvent, start: Option<Timestamp>, end: Option<Timestamp>) -> (r: bool)
    ensures
        r == in_window(*e, start, end),
{
    let after_start = match start {
        Some(s) => !e.timestamp.is_before(&s),
        None => true,
    };
    let before_end = match end {
        Some(t) => !t.is_before(&e.timestamp),
        None => true,
    };
    after_start && before_end
}

fn holds_position(v: &Vec<usize>, j: usize) -> (r: bool)
    ensures
        r == v@.contains(j),
{
    let n = v.len();
    let mut i: usize = 0;
    while i < n
        invariant
            n == v@.len(),
            i <= n,
            forall|k: int| 0 <= k < i ==> v@[k] != j,
        decreases n - i,
    {
        if v[i] == j {
            return true;
        }
        i = i + 1;
    }
    false
}

/// Whether `r` answers an audit query over `events`: the positions of at
/// most `limit` events within the window, latest first; where fewer than
/// `limit` are returned, every event within the window is; no event left out
/// is later than the last one returned (events at equal instants come in no
/// promised order).
pub open spec fn answers_query(
    events: Seq<AuditEvent>,
    start: Option<Timestamp>,
    end: Option<Timestamp>,
    limit: nat,
    r: Seq<usize>,
) -> bool {
    &&& r.len() <= limit
    &&& forall|i: int| 0 <= i < r.len() ==> (r[i] as int) < events.len() && in_window(events[r[i] as int], start, end)
    &&& forall|a: int, b: int| 0 <= a < b < r.len() ==> r[a] != r[b]
    &&& forall|a: int, b: int|
        0 <= a < b < r.len() ==> !before(events[r[a] as int].timestamp, events[r[b] as int].timestamp)
    &&& r.len() < limit ==> forall|j: int|
        0 <= j < events.len() && in_window(#[trigger] events[j], start, end) ==> r.contains(j as usize)
    &&& forall|j: int|
        0 <= j < events.len() && in_window(#[trigger] events[j], start, end) && !r.contains(j as usize) ==> r.len()
            == limit && (r.len() == 0 || !before(events[r.last() as int].timestamp, events[j].timestamp))
}

/// The answer to an audit query: see [`answers_query`].
pub fn query_audit_log(
    events: &Vec<AuditEvent>,
    start: Option<Timestamp>,
    end: Option<Timestamp>,
    limit: u32,
) -> (r: Vec<usize>)
    ensures
        answers_query(events@, start, end, limit as nat, r@),
{
    let n = events.len();
    let mut chosen: Vec<usize> = Vec::new();
    while chosen.len() < limit as usize
        invariant
            n == events@.len(),
            chosen@.len() <= limit,
            forall|i: int| 0 <= i < chosen@.len() ==> (chosen@[i] as int) < n && in_window(events@[chosen@[i] as int], start, end),
            forall|a: int, b: int| 0 <= a < b < chosen@.len() ==> chosen@[a] != chosen@[b],
            forall|a: int, b: int|
                0 <= a < b < chosen@.len() ==> !before(events@[chosen@[a] as int].timestamp, events@[chosen@[b] as int].timestamp),
            forall|j: int|
                0 <= j < n && in_window(#[trigger] events@[j], start, end) && !chosen@.contains(j as usize)
                    ==> chosen@.len() == 0 || !before(events@[chosen@.last() as int].timestamp, events@[j].timestamp),
        ensures
            chosen@.len() <= limit,
            forall|i: int| 0 <= i < chosen@.len() ==> (chosen@[i] as int) < n && in_window(events@[chosen@[i] as int], start, end),
            forall|a: int, b: int| 0 <= a < b < chosen@.len() ==> chosen@[a] != chosen@[b],
            forall|a: int, b: int|
                0 <= a < b < chosen@.len() ==> !before(events@[chosen@[a] as int].timestamp, events@[chosen@[b] as int].timestamp),
            forall|j: int|
                0 <= j < n && in_window(#[trigger] events@[j], start, end) && !chosen@.contains(j as usize)
                    ==> chosen@.len() == 0 || !before(events@[chosen@.last() as int].timestamp, events@[j].timestamp),
            chosen@.len() < limit ==> forall|j: int|
                0 <= j < n && in_window(#[trigger] events@[j], start, end) ==> chosen@.contains(j as usize),
        decreases limit - chosen@.len(),
    {
        let mut best: Option<usize> = None;
        let mut j: usize = 0;
        while j < n
            invariant
                n == events@.len(),
                j <= n,
                best matches Some(b) ==> (b as int) < n && in_window(events@[b as int], start, end) && !chosen@.contains(b),
                forall|k: int|
                    0 <= k < j && in_window(#[trigger] events@[k], start, end) && !chosen@.contains(k as usize)
                        ==> (best matches Some(b) && !before(events@[b as int].timestamp, events@[k].timestamp)),
            decreases n - j,
        {
            let e = &events[j];
            if within(e, start, end) && !holds_position(&chosen, j) {
                match best {
                    None => {
                        best = Some(j);
                    },
                    Some(b) => {
                        if events[b].timestamp.is_before(&e.timestamp) {
                            best = Some(j);
                        }
                    },
                }
            }
            j = j + 1;
        }
        match best {
            None => {
                break;
            },
            Some(b) => {
                let ghost prev = chosen@;
                chosen.push(b);
                proof {
                    assert forall|k: int|
                        0 <= k < n && in_window(#[trigger] events@[k], start, end) && !chosen@.contains(k as usize)
                            implies !before(events@[chosen@.last() as int].timestamp, events@[k].timestamp) by {
                        assert(!prev.contains(k as usize)) by {
                            if prev.contains(k as usize) {
                                let w = choose|w: int| 0 <= w < prev.len() && prev[w] == k as usize;
                                assert(chosen@[w] == prev[w]);
                            }
                        }
                    }
                    assert forall|a: int, c: int| 0 <= a < c < chosen@.len() implies chosen@[a] != chosen@[c] by {
                        if c == chosen@.len() - 1 {
                            assert(prev.contains(chosen@[a]));
                        }
                    }
                    assert forall|a: int, c: int|
                        0 <= a < c < chosen@.len() implies !before(
                            events@[chosen@[a] as int].timestamp,
                            events@[chosen@[c] as int].timestamp,
                        ) by {
                        if c == chosen@.len() - 1 && a < c {
                            assert(prev.len() > 0);
                            assert(!before(events@[prev.last() as int].timestamp, events@[b as int].timestamp));
                            if a < prev.len() - 1 {
                                assert(!before(events@[prev[a] as int].timestamp, events@[prev.last() as int].timestamp));
                            }
                        }
                    }
                }
            },
        }
    }
    chosen
}

/// What is appended to the audit log is found by a later query: an event
/// appended to a log that, with it, holds fewer events than the query's
/// `limit`, and that falls within the queried window, is among the answers;
/// a query without bounds then returns every event.
pub proof fn lemma_appended_event_is_queried(
    log: Seq<AuditEvent>,
    e: AuditEvent,
    start: Option<Timestamp>,
    end: Option<Timestamp>,
    limit: nat,
    r: Seq<usize>,
)
    requires
        log.len() + 1 < limit,
        in_window(e, start, end),
        answers_query(log.push(e), start, end, limit, r),
    ensures
        r.contains(log.len() as usize),
        start is None && end is None ==> forall|j: usize| j <= log.len() ==> #[trigger] r.contains(j),
{
    let all = log.push(e);
    lemma_distinct_positions_fit(r, all.len());
    assert(r.len() < limit);
    assert(all[log.len() as int] == e);
    assert(in_window(all[log.len() as int], start, end));
    if start is None && end is None {
        assert forall|j: usize| j <= log.len() implies #[trigger] r.contains(j) by {
            assert(in_window(all[j as int], start, end));
        }
    }
}

/// Distinct positions below `n` number at most `n`.
proof fn lemma_distinct_positions_fit(r: Seq<usize>, n: nat)
    requires
        forall|i: int| 0 <= i < r.len() ==> (r[i] as int) < n,
        forall|a: int, b: int| 0 <= a < b < r.len() ==> r[a] != r[b],
    ensures
        r.len() <= n,
{
    let ri = r.map_values(|x: usize| x as int);
    assert(ri.no_duplicates()) by {
        assert forall|a: int, b: int| 0 <= a < ri.len() && 0 <= b < ri.len() && a != b implies ri[a] != ri[b] by {
            if a < b {
                assert(r[a] != r[b]);
            } else {
                assert(r[b] != r[a]);
            }
        }
    }
    ri.unique_seq_to_set();
    vstd::set_lib::lemma_int_range(0, n as int);
    assert(ri.to_set().subset_of(vstd::set_lib::set_int_range(0, n as int))) by {
        assert forall|x: int| ri.to_set().contains(x) implies vstd::set_lib::set_int_range(0, n as int).contains(x) by {
            assert(ri.contains(x));
            let i = choose|i: int| 0 <= i < ri.len() && ri[i] == x;
            assert(r[i] as int == x);
        }
    }
    vstd::set_lib::lemma_len_subset(ri.to_set(), vstd::set_lib::set_int_range(0, n as int));
}

} // verus!
