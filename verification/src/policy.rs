//! The policy engine: policies ordered by priority, and the first policy of
//! the requested resource type whose pattern admits the resource id decides.
use vstd::prelude::*;
use crate::models::{ApprovalScope, Decision, DecisionView, Policy, ResourceType};

verus! {

broadcast use vstd::seq_lib::group_seq_properties;

/// Whether `regex::Regex::new` accepts `pattern`.
pub uninterp spec fn regex_compiles(pattern: Seq<char>) -> bool;

/// What `regex::Regex::is_match` answers for the compiled `pattern` on `text`.
pub uninterp spec fn regex_finds(pattern: Seq<char>, text: Seq<char>) -> bool;

/// Compiles `pattern` with `regex::Regex::new` and, where that succeeds, asks
/// `regex::Regex::is_match` whether the expression matches somewhere in `text`.
/// `None` exactly where the pattern does not compile; both answers are named
/// results of the regex crate.
#[verifier::external_body]
fn regex_search(pattern: &str, text: &str) -> (r: Option<bool>)
    ensures
        r is Some <==> regex_compiles(pattern@),
        r matches Some(b) ==> b == regex_finds(pattern@, text@),
{
    match regex::Regex::new(pattern) {
        Ok(re) => Some(re.is_match(text)),
        Err(_) => None,
    }
}

/// A pattern admits a resource id when it compiles and matches the id.
pub open spec fn pattern_admits(pattern: Seq<char>, id: Seq<char>) -> bool {
    regex_compiles(pattern) && regex_finds(pattern, id)
}

/// A policy admits a request when it is for the requested resource type and
/// one of its patterns admits the resource id.
pub open spec fn policy_admits(p: Policy, rt: ResourceType, id: Seq<char>) -> bool {
    &&& p.resource_type == rt
    &&& exists|i: int| 0 <= i < p.allowed_patterns@.len() && pattern_admits(#[trigger] p.allowed_patterns@[i]@, id)
}

/// What an admitting policy decides.
pub open spec fn policy_decision(p: Policy) -> DecisionView {
    if p.auto_approve {
        DecisionView::Allow
    } else {
        DecisionView::PendingApproval(p.default_scope)
    }
}

/// The reason given when no policy admits a request.
pub open spec fn no_match_reason() -> Seq<char> {
    "No matching policy found"@
}

/// The decision of the first admitting policy in `ps`, or a denial.
pub open spec fn decide(ps: Seq<Policy>, rt: ResourceType, id: Seq<char>) -> DecisionView
    decreases ps.len(),
{
    if ps.len() == 0 {
        DecisionView::Deny(no_match_reason())
    } else if policy_admits(ps[0], rt, id) {
        policy_decision(ps[0])
    } else {
        decide(ps.drop_first(), rt, id)
    }
}

/// Higher priority first.
pub open spec fn sorted_by_priority(ps: Seq<Policy>) -> bool {
    forall|i: int, j: int| 0 <= i < j < ps.len() ==> ps[i].priority >= ps[j].priority
}

/// The policies of priority `k`, in their order in `ps`.
pub open spec fn priority_class(ps: Seq<Policy>, k: i32) -> Seq<Policy> {
    ps.filter(|p: Policy| p.priority == k)
}

/// Evaluates requests against policies kept in order of priority.
pub struct PolicyEngine {
    policies: Vec<Policy>,
}

impl View for PolicyEngine {
    type V = Seq<Policy>;

    /// The policies, in the order in which they are consulted.
    closed spec fn view(&self) -> Seq<Policy> {
        self.policies@
    }
}

proof fn lemma_class_of_insert(r: Seq<Policy>, j: int, x: Policy, k: i32)
    requires
        0 <= j <= r.len(),
        forall|q: int| 0 <= q < j ==> r[q].priority >= x.priority,
        forall|q: int| j <= q < r.len() ==> r[q].priority < x.priority,
    ensures
        priority_class(r.insert(j, x), k) == if k == x.priority {
            priority_class(r, k).push(x)
        } else {
            priority_class(r, k)
        },
{
    let f = |p: Policy| p.priority == k;
    let a = r.take(j);
    let b = r.skip(j);
    assert(r =~= a + b);
    assert(r.insert(j, x) =~= a + seq![x] + b);
    Seq::filter_distributes_over_add(a, b, f);
    Seq::filter_distributes_over_add(a + seq![x], b, f);
    Seq::filter_distributes_over_add(a, seq![x], f);
    reveal_with_fuel(Seq::<_>::filter, 2);
    if k == x.priority {
        assert(b.filter(f) =~= Seq::<Policy>::empty()) by {
            if b.filter(f).len() > 0 {
                let e = b.filter(f)[0];
                assert(b.filter(f).contains(e));
                b.lemma_filter_contains_rev(f, e);
            }
        }
        assert(seq![x].filter(f) =~= seq![x]);
    } else {
        assert(seq![x].filter(f) =~= Seq::<Policy>::empty());
    }
}

proof fn lemma_class_of_push(s: Seq<Policy>, x: Policy, k: i32)
    ensures
        priority_class(s.push(x), k) == if k == x.priority {
            priority_class(s, k).push(x)
        } else {
            priority_class(s, k)
        },
{
    s.lemma_filter_push(x, |p: Policy| p.priority == k);
}

impl PolicyEngine {
    /// An engine over `policies`, which it keeps ordered by priority, higher
    /// first; policies of equal priority keep the order they were given in.
    pub fn new(policies: Vec<Policy>) -> (engine: Self)
        ensures
            sorted_by_priority(engine@),
            forall|k: i32| #[trigger] priority_class(engine@, k) == priority_class(policies@, k),
            engine@.len() == policies@.len(),
    {
        let ghost orig = policies@;
        let mut rest = policies;
        let mut sorted: Vec<Policy> = Vec::new();
        let n = rest.len();
        let mut t: usize = 0;
        while t < n
            invariant
                n == orig.len(),
                t <= n,
                rest@ == orig.skip(t as int),
                sorted@.len() == t,
                sorted_by_priority(sorted@),
                forall|k: i32| #[trigger] priority_class(sorted@, k) == priority_class(orig.take(t as int), k),
            decreases n - t,
        {
            let x = rest.remove(0);
            assert(x == orig[t as int]);
            let mut j: usize = 0;
            while j < sorted.len() && sorted[j].priority >= x.priority
                invariant
                    j <= sorted@.len(),
                    forall|q: int| 0 <= q < j ==> sorted@[q].priority >= x.priority,
                decreases sorted@.len() - j,
            {
                j = j + 1;
            }
            let ghost before_insert = sorted@;
            proof {
                assert forall|q: int| j <= q < before_insert.len() implies before_insert[q].priority < x.priority by {
                    if q > j {
                        assert(before_insert[j as int].priority >= before_insert[q].priority);
                    }
                }
            }
            sorted.insert(j, x);
            proof {
                assert(orig.take(t + 1) =~= orig.take(t as int).push(x));
                assert forall|k: i32| #[trigger] priority_class(sorted@, k) == priority_class(orig.take(t + 1), k) by {
                    lemma_class_of_insert(before_insert, j as int, x, k);
                    lemma_class_of_push(orig.take(t as int), x, k);
                }
                assert forall|a: int, b: int| 0 <= a < b < sorted@.len() implies sorted@[a].priority >= sorted@[b].priority by {
                    if a < j && b > j {
                        assert(sorted@[b] == before_insert[b - 1]);
                    } else if a > j {
                        assert(sorted@[a] == before_insert[a - 1]);
                        assert(sorted@[b] == before_insert[b - 1]);
                    } else if a == j {
                        assert(sorted@[b] == before_insert[b - 1]);
                    }
                }
                assert(rest@ =~= orig.skip(t + 1));
            }
            t = t + 1;
        }
        proof {
            assert(orig.take(n as int) =~= orig);
        }
        PolicyEngine { policies: sorted }
    }

    /// The decision for a request for `resource_id` of `resource_type`: that of
    /// the first policy, in priority order, which is for `resource_type` and one
    /// of whose patterns compiles and matches `resource_id`; a denial with the
    /// reason "No matching policy found" where there is none.
    pub fn evaluate(&self, resource_type: ResourceType, resource_id: &str) -> (d: Decision)
        ensures
            d@ == decide(self@, resource_type, resource_id@),
    {
        let n = self.policies.len();
        let mut i: usize = 0;
        while i < n
            invariant
                n == self.policies@.len(),
                i <= n,
                decide(self.policies@, resource_type, resource_id@) == decide(
                    self.policies@.skip(i as int),
                    resource_type,
                    resource_id@,
                ),
            decreases n - i,
        {
            let policy = &self.policies[i];
            assert(self.policies@.skip(i as int)[0] == *policy);
            assert(self.policies@.skip(i as int).drop_first() =~= self.policies@.skip(i + 1));
            if policy.resource_type == resource_type {
                let m = policy.allowed_patterns.len();
                let mut k: usize = 0;
                while k < m
                    invariant
                        m == policy.allowed_patterns@.len(),
                        k <= m,
                        policy.resource_type == resource_type,
                        *policy == self.policies@[i as int],
                        i < n,
                        n == self.policies@.len(),
                        decide(self.policies@, resource_type, resource_id@) == decide(
                            self.policies@.skip(i as int),
                            resource_type,
                            resource_id@,
                        ),
                        forall|q: int| 0 <= q < k ==> !pattern_admits(#[trigger] policy.allowed_patterns@[q]@, resource_id@),
                    decreases m - k,
                {
                    let pattern = policy.allowed_patterns[k].as_str();
                    match regex_search(pattern, resource_id) {
                        Some(true) => {
                            assert(pattern_admits(policy.allowed_patterns@[k as int]@, resource_id@));
                            assert(policy_admits(*policy, resource_type, resource_id@));
                            if policy.auto_approve {
                                return Decision::Allow;
                            } else {
                                return Decision::PendingApproval(policy.default_scope);
                            }
                        },
                        _ => {},
                    }
                    k = k + 1;
                }
            }
            i = i + 1;
        }
        proof {
            assert(self.policies@.skip(n as int) =~= Seq::<Policy>::empty());
        }
        Decision::Deny(String::from_str("No matching policy found"))
    }
}


proof fn lemma_decide_first_admitting(ps: Seq<Policy>, rt: ResourceType, id: Seq<char>, q: int) -> (i0: int)
    requires
        0 <= q < ps.len(),
        policy_admits(ps[q], rt, id),
    ensures
        0 <= i0 <= q,
        policy_admits(ps[i0], rt, id),
        decide(ps, rt, id) == policy_decision(ps[i0]),
    decreases ps.len(),
{
    if policy_admits(ps[0], rt, id) {
        0
    } else {
        let rest = ps.drop_first();
        assert(rest[q - 1] == ps[q]);
        let i1 = lemma_decide_first_admitting(rest, rt, id, q - 1);
        assert(rest[i1] == ps[i1 + 1]);
        i1 + 1
    }
}

/// Fail-closed evaluation: the engine allows a request only where a policy
/// for that resource type, one of whose patterns admits the resource id,
/// approves automatically; it asks for approval in the scope of such a policy
/// otherwise; and it denies, with the reason "No matching policy found",
/// exactly where no policy admits the request.
pub proof fn lemma_decision_comes_from_an_admitting_policy(ps: Seq<Policy>, rt: ResourceType, id: Seq<char>)
    ensures
        decide(ps, rt, id) is Allow ==> exists|i: int|
            0 <= i < ps.len() && policy_admits(#[trigger] ps[i], rt, id) && ps[i].auto_approve,
        decide(ps, rt, id) matches DecisionView::PendingApproval(s) ==> exists|i: int|
            0 <= i < ps.len() && policy_admits(#[trigger] ps[i], rt, id) && !ps[i].auto_approve
                && ps[i].default_scope == s,
        decide(ps, rt, id) is Deny <==> forall|i: int| 0 <= i < ps.len() ==> !policy_admits(#[trigger] ps[i], rt, id),
        decide(ps, rt, id) matches DecisionView::Deny(m) ==> m == no_match_reason(),
    decreases ps.len(),
{
    if ps.len() == 0 {
    } else if policy_admits(ps[0], rt, id) {
    } else {
        let rest = ps.drop_first();
        lemma_decision_comes_from_an_admitting_policy(rest, rt, id);
        if decide(ps, rt, id) is Allow {
            let i = choose|i: int| 0 <= i < rest.len() && policy_admits(#[trigger] rest[i], rt, id) && rest[i].auto_approve;
            assert(ps[i + 1] == rest[i]);
        }
        if decide(ps, rt, id) is PendingApproval {
            let s = decide(ps, rt, id)->PendingApproval_0;
            let i = choose|i: int| 0 <= i < rest.len() && policy_admits(#[trigger] rest[i], rt, id) && !rest[i].auto_approve
                && rest[i].default_scope == s;
            assert(ps[i + 1] == rest[i]);
        }
        if decide(ps, rt, id) is Deny {
            assert forall|i: int| 0 <= i < ps.len() implies !policy_admits(#[trigger] ps[i], rt, id) by {
                if i > 0 {
                    assert(ps[i] == rest[i - 1]);
                }
            }
        } else {
            if forall|i: int| 0 <= i < ps.len() ==> !policy_admits(#[trigger] ps[i], rt, id) {
                assert forall|i: int| 0 <= i < rest.len() implies !policy_admits(#[trigger] rest[i], rt, id) by {
                    assert(rest[i] == ps[i + 1]);
                }
            }
        }
    }
}

proof fn lemma_member_of_class(s: Seq<Policy>, t: Seq<Policy>, x: Policy)
    requires
        s.contains(x),
        priority_class(s, x.priority) == priority_class(t, x.priority),
    ensures
        t.contains(x),
{
    let f = |p: Policy| p.priority == x.priority;
    let w = choose|w: int| 0 <= w < s.len() && s[w] == x;
    s.lemma_filter_contains(f, w);
    t.lemma_filter_contains_rev(f, x);
}

/// Priority decides: where, among the policies given to [`PolicyEngine::new`],
/// one policy admits a request and every other admitting policy has a lower
/// priority, the engine's decision is that policy's, wherever it stood among
/// the policies given.
pub proof fn lemma_highest_priority_admitting_policy_decides(
    given: Seq<Policy>,
    ordered: Seq<Policy>,
    rt: ResourceType,
    id: Seq<char>,
    j: int,
)
    requires
        sorted_by_priority(ordered),
        forall|k: i32| #[trigger] priority_class(ordered, k) == priority_class(given, k),
        0 <= j < given.len(),
        policy_admits(given[j], rt, id),
        forall|q: int|
            0 <= q < given.len() && policy_admits(#[trigger] given[q], rt, id) && given[q] != given[j]
                ==> given[q].priority < given[j].priority,
    ensures
        decide(ordered, rt, id) == policy_decision(given[j]),
{
    let p = given[j];
    assert(given.contains(p));
    assert(priority_class(given, p.priority) == priority_class(ordered, p.priority));
    lemma_member_of_class(given, ordered, p);
    let qpos = choose|qpos: int| 0 <= qpos < ordered.len() && ordered[qpos] == p;
    let i0 = lemma_decide_first_admitting(ordered, rt, id, qpos);
    let w = ordered[i0];
    assert(ordered.contains(w));
    assert(priority_class(ordered, w.priority) == priority_class(given, w.priority));
    lemma_member_of_class(ordered, given, w);
    let g = choose|g: int| 0 <= g < given.len() && given[g] == w;
    if w != p {
        assert(given[g].priority < p.priority);
        if i0 < qpos {
            assert(ordered[i0].priority >= ordered[qpos].priority);
        }
    }
}

} // verus!
