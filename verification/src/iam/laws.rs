//! Properties of the policy engine's decisions that hold for every policy list.

use vstd::prelude::*;
use crate::iam::engine::{applies, decide, default_deny_reason, is_winner, lemma_winner_unique, precedes, winner};
use crate::iam::types::{action_matches, law_group_policy_names_members, resource_matches, DecisionView, Policy, PolicyEffect, Subject, SubjectType};

verus! {

/// Policy `b` is the best applicable one among the first `n`.
pub open spec fn best_in_prefix(ps: Seq<Policy>, n: int, b: int, subject: Subject, namespace: Seq<char>, name: Seq<char>, action: Seq<char>) -> bool {
    &&& 0 <= b < n <= ps.len()
    &&& applies(ps[b], subject, namespace, name, action)
    &&& forall|j: int| 0 <= j < n && #[trigger] applies(ps[j], subject, namespace, name, action)
        ==> !precedes(ps[j], ps[b])
    &&& forall|j: int| 0 <= j < b && #[trigger] applies(ps[j], subject, namespace, name, action)
        ==> precedes(ps[b], ps[j])
}

proof fn lemma_best_in_prefix(ps: Seq<Policy>, n: int, subject: Subject, namespace: Seq<char>, name: Seq<char>, action: Seq<char>)
    requires
        0 <= n <= ps.len(),
        exists|k: int| 0 <= k < n && #[trigger] applies(ps[k], subject, namespace, name, action),
    ensures
        exists|b: int| best_in_prefix(ps, n, b, subject, namespace, name, action),
    decreases n,
{
    let m = n - 1;
    if exists|k: int| 0 <= k < m && #[trigger] applies(ps[k], subject, namespace, name, action) {
        lemma_best_in_prefix(ps, m, subject, namespace, name, action);
        let b = choose|b: int| best_in_prefix(ps, m, b, subject, namespace, name, action);
        if applies(ps[m], subject, namespace, name, action) && precedes(ps[m], ps[b]) {
            assert(best_in_prefix(ps, n, m, subject, namespace, name, action));
        } else {
            assert(best_in_prefix(ps, n, b, subject, namespace, name, action));
        }
    } else {
        assert(applies(ps[m], subject, namespace, name, action));
        assert(best_in_prefix(ps, n, m, subject, namespace, name, action));
    }
}

/// Whenever some policy applies to a request, exactly one policy decides it.
pub proof fn lemma_winner_exists(ps: Seq<Policy>, k: int, subject: Subject, namespace: Seq<char>, name: Seq<char>, action: Seq<char>)
    requires
        0 <= k < ps.len(),
        applies(ps[k], subject, namespace, name, action),
    ensures
        winner(ps, subject, namespace, name, action) is Some,
        is_winner(ps, winner(ps, subject, namespace, name, action)->0, subject, namespace, name, action),
{
    lemma_best_in_prefix(ps, ps.len() as int, subject, namespace, name, action);
    let b = choose|b: int| best_in_prefix(ps, ps.len() as int, b, subject, namespace, name, action);
    assert(is_winner(ps, b, subject, namespace, name, action));
}

/// Default deny: a request that no policy applies to is denied, saying that
/// no Allow policy grants it.
pub proof fn law_default_deny(ps: Seq<Policy>, subject: Subject, namespace: Seq<char>, name: Seq<char>, action: Seq<char>)
    requires
        forall|i: int| 0 <= i < ps.len() ==> !applies(#[trigger] ps[i], subject, namespace, name, action),
    ensures
        decide(ps, subject, namespace, name, action)
            == (DecisionView::Deny { reason: default_deny_reason(subject.user_id@, namespace, name) }),
{
    if exists|i: int| is_winner(ps, i, subject, namespace, name, action) {
        let i = choose|i: int| is_winner(ps, i, subject, namespace, name, action);
        assert(applies(ps[i], subject, namespace, name, action));
    }
}

/// An explicit Deny overrides any Allow: when some applicable policy denies,
/// the request is denied, whatever the priorities.
pub proof fn law_deny_overrides_allow(ps: Seq<Policy>, d: int, subject: Subject, namespace: Seq<char>, name: Seq<char>, action: Seq<char>)
    requires
        0 <= d < ps.len(),
        applies(ps[d], subject, namespace, name, action),
        ps[d].effect == PolicyEffect::Deny,
    ensures
        decide(ps, subject, namespace, name, action) is Deny,
{
    lemma_winner_exists(ps, d, subject, namespace, name, action);
    let w = winner(ps, subject, namespace, name, action)->0;
    if ps[w].effect == PolicyEffect::Allow {
        assert(precedes(ps[d], ps[w]));
    }
}

/// A request is allowed exactly when some applicable policy allows it and no
/// applicable policy denies it.
pub proof fn law_allowed_iff(ps: Seq<Policy>, subject: Subject, namespace: Seq<char>, name: Seq<char>, action: Seq<char>)
    ensures
        (decide(ps, subject, namespace, name, action) is Allow) <==> (
            (exists|a: int| 0 <= a < ps.len() && #[trigger] applies(ps[a], subject, namespace, name, action)
                && ps[a].effect == PolicyEffect::Allow)
            && (forall|d: int| 0 <= d < ps.len() && #[trigger] applies(ps[d], subject, namespace, name, action)
                ==> ps[d].effect != PolicyEffect::Deny)),
{
    if exists|d: int| 0 <= d < ps.len() && #[trigger] applies(ps[d], subject, namespace, name, action)
        && ps[d].effect == PolicyEffect::Deny {
        let d = choose|d: int| 0 <= d < ps.len() && #[trigger] applies(ps[d], subject, namespace, name, action)
            && ps[d].effect == PolicyEffect::Deny;
        law_deny_overrides_allow(ps, d, subject, namespace, name, action);
    } else if exists|a: int| 0 <= a < ps.len() && #[trigger] applies(ps[a], subject, namespace, name, action)
        && ps[a].effect == PolicyEffect::Allow {
        let a = choose|a: int| 0 <= a < ps.len() && #[trigger] applies(ps[a], subject, namespace, name, action)
            && ps[a].effect == PolicyEffect::Allow;
        lemma_winner_exists(ps, a, subject, namespace, name, action);
        let w = winner(ps, subject, namespace, name, action)->0;
        assert(applies(ps[w], subject, namespace, name, action));
    } else {
        if exists|i: int| is_winner(ps, i, subject, namespace, name, action) {
            let i = choose|i: int| is_winner(ps, i, subject, namespace, name, action);
            assert(applies(ps[i], subject, namespace, name, action));
        }
    }
}

/// Within the same effect, the higher priority wins: the deciding policy has
/// at least the priority of every applicable policy with its effect, and of
/// those with equal priority it is the first listed.
pub proof fn law_priority_order(ps: Seq<Policy>, j: int, subject: Subject, namespace: Seq<char>, name: Seq<char>, action: Seq<char>)
    requires
        0 <= j < ps.len(),
        applies(ps[j], subject, namespace, name, action),
    ensures
        ({
            let w = winner(ps, subject, namespace, name, action)->0;
            &&& winner(ps, subject, namespace, name, action) is Some
            &&& ps[w].effect == ps[j].effect ==> ps[w].priority >= ps[j].priority
            &&& ps[w].effect == ps[j].effect && ps[w].priority == ps[j].priority ==> w <= j
        }),
{
    lemma_winner_exists(ps, j, subject, namespace, name, action);
}

/// A request has at most one deciding policy, and it is the one the
/// decision follows.
pub proof fn law_single_decider(ps: Seq<Policy>, i: int, k: int, subject: Subject, namespace: Seq<char>, name: Seq<char>, action: Seq<char>)
    requires
        is_winner(ps, i, subject, namespace, name, action),
        is_winner(ps, k, subject, namespace, name, action),
    ensures
        i == k,
        winner(ps, subject, namespace, name, action) == Some(i),
{
    lemma_winner_unique(ps, i, k, subject, namespace, name, action);
    let w = choose|w: int| is_winner(ps, w, subject, namespace, name, action);
    lemma_winner_unique(ps, i, w, subject, namespace, name, action);
}

/// A group Allow grants its group's members: where a group policy allows an
/// action on a resource, and no applicable policy denies, every subject with
/// that group among its groups, at any position, is allowed.
pub proof fn law_group_allow_grants_members(ps: Seq<Policy>, k: int, subject: Subject, g: int, namespace: Seq<char>, name: Seq<char>, action: Seq<char>)
    requires
        0 <= k < ps.len(),
        ps[k].subject_type == SubjectType::Group,
        ps[k].effect == PolicyEffect::Allow,
        0 <= g < subject.groups@.len(),
        subject.groups@[g]@ == ps[k].subject_name@,
        resource_matches(ps[k].resource_pattern@, namespace, name),
        action_matches(ps[k].action@, action),
        forall|d: int| 0 <= d < ps.len() && #[trigger] applies(ps[d], subject, namespace, name, action)
            ==> ps[d].effect != PolicyEffect::Deny,
    ensures
        decide(ps, subject, namespace, name, action) is Allow,
{
    law_group_policy_names_members(ps[k], subject, g);
    assert(applies(ps[k], subject, namespace, name, action));
    law_allowed_iff(ps, subject, namespace, name, action);
}

} // verus!
