//! The policy engine: which policy decides a request, and what it decides.

use vstd::prelude::*;
use crate::ids::{uuid_text, uuid_to_text};
use crate::iam::types::{AccessDecision, ColumnMask, DecisionView, MaskKind, Policy, PolicyEffect, ResourceId, Subject, action_matches, opt_text, qualified_name, resource_matches, subject_matches};
use crate::json::{distinct_keys, json_string_map, pairs_map, parse_string_map, text_pairs_map};
use crate::text::str_eq;

verus! {

/// Anything that decides IAM requests.
pub trait IamEngine {
    /// The decision for `subject` asking to perform `action` on `namespace.name`.
    spec fn decision(&self, subject: Subject, namespace: Seq<char>, name: Seq<char>, action: Seq<char>) -> DecisionView;

    /// Decides one request.
    fn check(&self, subject: &Subject, resource: &ResourceId, action: &str) -> (r: AccessDecision)
        ensures
            r@ == self.decision(*subject, resource.namespace@, resource.name@, action@),
            r.wf();

    /// Replaces the policies the engine decides by.
    fn reload(&mut self, policies: Vec<Policy>);
}

/// Deny policies come before Allow policies.
pub open spec fn effect_rank(e: PolicyEffect) -> int {
    match e {
        PolicyEffect::Deny => 0,
        PolicyEffect::Allow => 1,
    }
}

/// `a` takes precedence over `b`: a Deny over an Allow, and within the same
/// effect the higher priority.
pub open spec fn precedes(a: Policy, b: Policy) -> bool {
    effect_rank(a.effect) < effect_rank(b.effect)
        || (effect_rank(a.effect) == effect_rank(b.effect) && a.priority > b.priority)
}

/// The policy applies to the request: it names the subject, its resource
/// pattern matches the dataset and its action pattern the action.
pub open spec fn applies(p: Policy, subject: Subject, namespace: Seq<char>, name: Seq<char>, action: Seq<char>) -> bool {
    &&& subject_matches(p, subject)
    &&& resource_matches(p.resource_pattern@, namespace, name)
    &&& action_matches(p.action@, action)
}

/// Policy `i` decides the request: it applies, no applicable policy takes
/// precedence over it, and it takes precedence over every applicable policy
/// listed before it (of equally ranked policies the first listed decides).
pub open spec fn is_winner(ps: Seq<Policy>, i: int, subject: Subject, namespace: Seq<char>, name: Seq<char>, action: Seq<char>) -> bool {
    &&& 0 <= i < ps.len()
    &&& applies(ps[i], subject, namespace, name, action)
    &&& forall|j: int| 0 <= j < ps.len() && #[trigger] applies(ps[j], subject, namespace, name, action)
        ==> !precedes(ps[j], ps[i])
    &&& forall|j: int| 0 <= j < i && #[trigger] applies(ps[j], subject, namespace, name, action)
        ==> precedes(ps[i], ps[j])
}

/// The deciding policy, if any policy applies.
pub open spec fn winner(ps: Seq<Policy>, subject: Subject, namespace: Seq<char>, name: Seq<char>, action: Seq<char>) -> Option<int> {
    if exists|i: int| is_winner(ps, i, subject, namespace, name, action) {
        Some(choose|i: int| is_winner(ps, i, subject, namespace, name, action))
    } else {
        None
    }
}

/// The mask kind a column mask entry names: `REDACT` or `SHA256`.
pub open spec fn mask_kind_of(v: Seq<char>) -> Option<MaskKind> {
    if v == "REDACT"@ {
        Some(MaskKind::Redact)
    } else if v == "SHA256"@ {
        Some(MaskKind::Sha256)
    } else {
        None
    }
}

/// The entries of a parsed column mask whose kind is known.
pub open spec fn known_masks(m: Map<Seq<char>, Seq<char>>) -> Map<Seq<char>, MaskKind> {
    Map::new(
        |k: Seq<char>| m.dom().contains(k) && mask_kind_of(m[k]) is Some,
        |k: Seq<char>| mask_kind_of(m[k])->0,
    )
}

/// The column mask of an Allow policy: none without a mask text or where the
/// text is not a JSON object of strings, else its entries of known kind.
pub open spec fn column_mask_of(json: Option<Seq<char>>) -> Option<Map<Seq<char>, MaskKind>> {
    match json {
        None => None,
        Some(t) => match json_string_map(t) {
            None => None,
            Some(m) => Some(known_masks(m)),
        },
    }
}

/// Why a request that no policy applies to is denied.
pub open spec fn default_deny_reason(user: Seq<char>, namespace: Seq<char>, name: Seq<char>) -> Seq<char> {
    "No Allow policy for "@ + user + " on "@ + qualified_name(namespace, name)
}

/// Why a request decided by a Deny policy is denied.
pub open spec fn policy_deny_reason(id: u128, namespace: Seq<char>, name: Seq<char>) -> Seq<char> {
    "Deny policy '"@ + uuid_text(id) + "' matched for "@ + qualified_name(namespace, name)
}

/// The decision over a list of policies: deny by default; else what the
/// deciding policy says, an Allow carrying its row filter and column mask.
pub open spec fn decide(ps: Seq<Policy>, subject: Subject, namespace: Seq<char>, name: Seq<char>, action: Seq<char>) -> DecisionView {
    match winner(ps, subject, namespace, name, action) {
        None => DecisionView::Deny { reason: default_deny_reason(subject.user_id@, namespace, name) },
        Some(i) => match ps[i].effect {
            PolicyEffect::Deny => DecisionView::Deny { reason: policy_deny_reason(ps[i].id, namespace, name) },
            PolicyEffect::Allow => DecisionView::Allow {
                row_filter: opt_text(ps[i].row_filter),
                column_mask: column_mask_of(opt_text(ps[i].column_mask_json)),
            },
        },
    }
}

/// At most one policy decides a request.
pub proof fn lemma_winner_unique(ps: Seq<Policy>, i: int, k: int, subject: Subject, namespace: Seq<char>, name: Seq<char>, action: Seq<char>)
    requires
        is_winner(ps, i, subject, namespace, name, action),
        is_winner(ps, k, subject, namespace, name, action),
    ensures
        i == k,
{
    if i < k {
        assert(applies(ps[i], subject, namespace, name, action));
    } else if k < i {
        assert(applies(ps[k], subject, namespace, name, action));
    }
}

/// The keys of a pair list are exactly the keys of the map it denotes.
pub proof fn lemma_pairs_map_dom<V>(s: Seq<(String, V)>, k: Seq<char>)
    ensures
        pairs_map(s).dom().contains(k) <==> exists|j: int| 0 <= j < s.len() && (#[trigger] s[j]).0@ == k,
    decreases s.len(),
{
    if s.len() > 0 {
        lemma_pairs_map_dom(s.drop_last(), k);
        if pairs_map(s).dom().contains(k) && k != s.last().0@ {
            let j = choose|j: int| 0 <= j < s.drop_last().len() && (#[trigger] s.drop_last()[j]).0@ == k;
            assert(s[j] == s.drop_last()[j]);
        }
        if exists|j: int| 0 <= j < s.len() && (#[trigger] s[j]).0@ == k {
            let j = choose|j: int| 0 <= j < s.len() && (#[trigger] s[j]).0@ == k;
            if j < s.len() - 1 {
                assert(s.drop_last()[j] == s[j]);
            }
        }
    }
}

fn text_is(s: &String, lit: &str) -> (r: bool)
    ensures
        r == (s@ == lit@),
{
    str_eq(s.as_str(), lit)
}

/// The column mask an Allow policy carries.
fn mask_from_json(json: &Option<String>) -> (r: Option<ColumnMask>)
    ensures
        match r {
            Some(m) => column_mask_of(opt_text(*json)) == Some(m.view()) && m.wf(),
            None => column_mask_of(opt_text(*json)) is None,
        },
{
    let text = match json {
        Some(t) => t,
        None => return None,
    };
    let pairs = match parse_string_map(text.as_str()) {
        Some(v) => v,
        None => return None,
    };
    let ghost m = json_string_map(text@)->0;
    let mut out: Vec<(String, MaskKind)> = Vec::new();
    let n = pairs.len();
    let mut i: usize = 0;
    while i < n
        invariant
            n == pairs@.len(),
            i <= n,
            distinct_keys(pairs@),
            distinct_keys(out@),
            forall|a: int| 0 <= a < out@.len() ==> exists|j: int| 0 <= j < i && (#[trigger] out@[a]).0@ == (#[trigger] pairs@[j]).0@,
            pairs_map(out@) == known_masks(text_pairs_map(pairs@.take(i as int))),
        decreases n - i,
    {
        let ghost prev = out@;
        let key = &pairs[i].0;
        let val = &pairs[i].1;
        let kind = if text_is(val, "REDACT") {
            Some(MaskKind::Redact)
        } else if text_is(val, "SHA256") {
            Some(MaskKind::Sha256)
        } else {
            None
        };
        assert(kind == mask_kind_of(val@));
        proof {
            let t = pairs@.take(i as int);
            let t1 = pairs@.take(i + 1);
            assert(t1.drop_last() =~= t);
            assert(t1.last() == pairs@[i as int]);
            lemma_pairs_map_dom(t, key@);
            if pairs_map(t).dom().contains(key@) {
                let j = choose|j: int| 0 <= j < t.len() && (#[trigger] t[j]).0@ == key@;
                assert(t[j] == pairs@[j]);
                assert(false);
            }
            assert(!text_pairs_map(t).dom().contains(key@));
        }
        match kind {
            Some(k) => {
                out.push((key.clone(), k));
                proof {
                    assert(out@.drop_last() =~= prev);
                    assert forall|a: int, b: int| 0 <= a < b < out@.len() implies (#[trigger] out@[a]).0@ != (#[trigger] out@[b]).0@ by {
                        if b == out@.len() - 1 {
                            assert(out@[a] == prev[a]);
                            let j = choose|j: int| 0 <= j < i && (#[trigger] prev[a]).0@ == (#[trigger] pairs@[j]).0@;
                        } else {
                            assert(out@[a] == prev[a] && out@[b] == prev[b]);
                        }
                    }
                    assert forall|a: int| 0 <= a < out@.len() implies exists|j: int| 0 <= j < i + 1 && (#[trigger] out@[a]).0@ == (#[trigger] pairs@[j]).0@ by {
                        if a == out@.len() - 1 {
                            assert(out@[a].0@ == pairs@[i as int].0@);
                        } else {
                            assert(out@[a] == prev[a]);
                            let j = choose|j: int| 0 <= j < i && (#[trigger] prev[a]).0@ == (#[trigger] pairs@[j]).0@;
                            assert(out@[a].0@ == pairs@[j].0@);
                        }
                    }
                    assert(pairs_map(out@) =~= known_masks(text_pairs_map(pairs@.take(i + 1))));
                }
            },
            None => {
                proof {
                    assert(pairs_map(out@) =~= known_masks(text_pairs_map(pairs@.take(i + 1))));
                }
            },
        }
        i += 1;
    }
    assert(pairs@.take(n as int) =~= pairs@);
    Some(ColumnMask(out))
}

/// In-memory policy engine holding a snapshot of the policies.
#[derive(Debug)]
pub struct SnapshotIamEngine {
    policies: Vec<Policy>,
}

impl SnapshotIamEngine {
    /// The policies the engine decides by.
    pub closed spec fn policies(&self) -> Seq<Policy> {
        self.policies@
    }

    /// An engine deciding by `policies`.
    pub fn new(policies: Vec<Policy>) -> (r: Self)
        ensures
            r.policies() == policies@,
    {
        SnapshotIamEngine { policies }
    }

    /// The index of the deciding policy, `None` where no policy applies.
    fn select(&self, subject: &Subject, resource: &ResourceId, action: &str) -> (r: Option<usize>)
        ensures
            r is None <==> forall|i: int| 0 <= i < self.policies@.len()
                ==> !applies(#[trigger] self.policies@[i], *subject, resource.namespace@, resource.name@, action@),
            r matches Some(i) ==> is_winner(self.policies@, i as int, *subject, resource.namespace@, resource.name@, action@),
    {
        let ghost ps = self.policies@;
        let ghost ns = resource.namespace@;
        let ghost nm = resource.name@;
        let ghost act = action@;
        let n = self.policies.len();
        let mut best: Option<usize> = None;
        let mut i: usize = 0;
        while i < n
            invariant
                n == ps.len(),
                ps == self.policies@,
                ns == resource.namespace@,
                nm == resource.name@,
                act == action@,
                i <= n,
                best is None ==> forall|k: int| 0 <= k < i ==> !applies(#[trigger] ps[k], *subject, ns, nm, act),
                best matches Some(b) ==> {
                    &&& b < i
                    &&& applies(ps[b as int], *subject, ns, nm, act)
                    &&& forall|j: int| 0 <= j < i && #[trigger] applies(ps[j], *subject, ns, nm, act)
                        ==> !precedes(ps[j], ps[b as int])
                    &&& forall|j: int| 0 <= j < b && #[trigger] applies(ps[j], *subject, ns, nm, act)
                        ==> precedes(ps[b as int], ps[j])
                },
            decreases n - i,
        {
            let p = &self.policies[i];
            let hit = p.matches_subject(subject) && p.matches_resource(resource.namespace.as_str(), resource.name.as_str())
                && p.matches_action(action);
            assert(hit == applies(ps[i as int], *subject, ns, nm, act));
            if hit {
                match best {
                    None => {
                        best = Some(i);
                    },
                    Some(b) => {
                        let q = &self.policies[b];
                        let better = match (p.effect, q.effect) {
                            (PolicyEffect::Deny, PolicyEffect::Allow) => true,
                            (PolicyEffect::Allow, PolicyEffect::Deny) => false,
                            _ => p.priority > q.priority,
                        };
                        assert(better == precedes(ps[i as int], ps[b as int]));
                        if better {
                            best = Some(i);
                        }
                    },
                }
            }
            i += 1;
        }
        best
    }
}

impl IamEngine for SnapshotIamEngine {
    open spec fn decision(&self, subject: Subject, namespace: Seq<char>, name: Seq<char>, action: Seq<char>) -> DecisionView {
        decide(self.policies(), subject, namespace, name, action)
    }

    /// Decides a request by the policy snapshot.
    fn check(&self, subject: &Subject, resource: &ResourceId, action: &str) -> (r: AccessDecision) {
        let ghost ps = self.policies@;
        let ghost ns = resource.namespace@;
        let ghost nm = resource.name@;
        proof {
            reveal_strlit(".");
        }
        match self.select(subject, resource, action) {
            None => {
                proof {
                    if exists|i: int| is_winner(ps, i, *subject, ns, nm, action@) {
                        let i = choose|i: int| is_winner(ps, i, *subject, ns, nm, action@);
                        assert(applies(ps[i], *subject, ns, nm, action@));
                    }
                }
                let mut reason = String::new();
                reason.append("No Allow policy for ");
                reason.append(subject.user_id.as_str());
                reason.append(" on ");
                reason.append(resource.namespace.as_str());
                reason.append(".");
                reason.append(resource.name.as_str());
                assert(reason@ =~= default_deny_reason(subject.user_id@, ns, nm));
                AccessDecision::Deny { reason }
            },
            Some(i) => {
                proof {
                    let w = choose|k: int| is_winner(ps, k, *subject, ns, nm, action@);
                    lemma_winner_unique(ps, i as int, w, *subject, ns, nm, action@);
                }
                let p = &self.policies[i];
                match p.effect {
                    PolicyEffect::Deny => {
                        let mut reason = String::new();
                        reason.append("Deny policy '");
                        let id_text = uuid_to_text(p.id);
                        reason.append(id_text.as_str());
                        reason.append("' matched for ");
                        reason.append(resource.namespace.as_str());
                        reason.append(".");
                        reason.append(resource.name.as_str());
                        assert(reason@ =~= policy_deny_reason(p.id, ns, nm));
                        AccessDecision::Deny { reason }
                    },
                    PolicyEffect::Allow => {
                        let row_filter = match &p.row_filter {
                            Some(f) => Some(f.clone()),
                            None => None,
                        };
                        let column_mask = mask_from_json(&p.column_mask_json);
                        AccessDecision::Allow { row_filter, column_mask }
                    },
                }
            },
        }
    }

    /// Replaces the snapshot.
    fn reload(&mut self, policies: Vec<Policy>)
        ensures
            final(self).policies() == policies@,
    {
        self.policies = policies;
    }
}

/// Permissive engine for use when IAM is disabled: every request is allowed,
/// with neither row filter nor column mask.
#[derive(Debug)]
pub struct AllowAllEngine;

impl IamEngine for AllowAllEngine {
    open spec fn decision(&self, subject: Subject, namespace: Seq<char>, name: Seq<char>, action: Seq<char>) -> DecisionView {
        DecisionView::Allow { row_filter: None, column_mask: None }
    }

    fn check(&self, subject: &Subject, resource: &ResourceId, action: &str) -> (r: AccessDecision) {
        AccessDecision::Allow { row_filter: None, column_mask: None }
    }

    fn reload(&mut self, policies: Vec<Policy>) {
    }
}

} // verus!
