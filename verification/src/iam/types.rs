//! IAM domain types: subjects, resources, policies, and access decisions.

use vstd::prelude::*;
use crate::json::{distinct_keys, pairs_map};
use crate::text::{ascii_eq_ignore_case, chars_eq, chars_of, eq_ignore_ascii_case};

verus! {

/// The identity issuing a query.
#[derive(Debug, Clone)]
pub struct Subject {
    pub user_id: String,
    pub groups: Vec<String>,
}

impl Subject {
    /// A copy of the subject.
    pub fn duplicate(&self) -> (r: Subject)
        ensures
            r.user_id == self.user_id,
            r.groups@ == self.groups@,
    {
        let groups = self.groups.clone();
        assert(groups@ =~= self.groups@);
        Subject { user_id: self.user_id.clone(), groups }
    }
}

/// Identifies a dataset as `namespace.name` for IAM policy matching.
#[derive(Debug, Clone)]
pub struct ResourceId {
    pub namespace: String,
    pub name: String,
}

/// `namespace.name`.
pub open spec fn qualified_name(namespace: Seq<char>, name: Seq<char>) -> Seq<char> {
    namespace + seq!['.'] + name
}

impl ResourceId {
    /// The qualified name `namespace.name`.
    pub fn qualified(&self) -> (r: String)
        ensures
            r@ == qualified_name(self.namespace@, self.name@),
    {
        let mut r = self.namespace.clone();
        r.append(".");
        r.append(self.name.as_str());
        proof {
            reveal_strlit(".");
        }
        assert(r@ =~= qualified_name(self.namespace@, self.name@));
        r
    }
}

/// Simple allow/deny enumeration.
#[derive(Debug, Clone, Copy, PartialEq, Eq, Structural)]
pub enum Effect {
    Allow,
    Deny,
}

/// How a masked column should be transformed.
#[derive(Debug, Clone, Copy, PartialEq, Eq, Structural)]
pub enum MaskKind {
    Redact,
    Sha256,
}

/// Maps column name to masking transformation, one pair per column.
#[derive(Debug, Clone)]
pub struct ColumnMask(pub Vec<(String, MaskKind)>);

impl ColumnMask {
    /// No column appears twice.
    pub open spec fn wf(&self) -> bool {
        distinct_keys(self.0@)
    }

    /// The masking transformation of each masked column.
    pub open spec fn view(&self) -> Map<Seq<char>, MaskKind> {
        pairs_map(self.0@)
    }
}

/// The outcome of an IAM policy evaluation, as the contracts speak of it.
pub enum DecisionView {
    Allow { row_filter: Option<Seq<char>>, column_mask: Option<Map<Seq<char>, MaskKind>> },
    Deny { reason: Seq<char> },
}

/// The outcome of an IAM policy evaluation for a subject, resource and action.
#[derive(Debug, Clone)]
pub enum AccessDecision {
    /// Access is granted, optionally with a SQL row filter and/or column masking.
    Allow { row_filter: Option<String>, column_mask: Option<ColumnMask> },
    Deny { reason: String },
}

/// The view of an optional string.
pub open spec fn opt_text(s: Option<String>) -> Option<Seq<char>> {
    match s {
        Some(t) => Some(t@),
        None => None,
    }
}

impl View for AccessDecision {
    type V = DecisionView;

    open spec fn view(&self) -> DecisionView {
        match self {
            AccessDecision::Allow { row_filter, column_mask } => DecisionView::Allow {
                row_filter: opt_text(*row_filter),
                column_mask: match column_mask {
                    Some(m) => Some(m.view()),
                    None => None,
                },
            },
            AccessDecision::Deny { reason } => DecisionView::Deny { reason: reason@ },
        }
    }
}

impl AccessDecision {
    /// Every column mask it carries has distinct columns.
    pub open spec fn wf(&self) -> bool {
        match self {
            AccessDecision::Allow { column_mask: Some(m), .. } => m.wf(),
            _ => true,
        }
    }

    /// Whether access is granted.
    pub fn is_allowed(&self) -> (r: bool)
        ensures
            r == (self@ is Allow),
    {
        match self {
            AccessDecision::Allow { .. } => true,
            AccessDecision::Deny { .. } => false,
        }
    }
}

/// Whether a policy grants or revokes access.
#[derive(Debug, Clone, Copy, PartialEq, Eq, Structural)]
pub enum PolicyEffect {
    Allow,
    Deny,
}

/// Whether a policy applies to a specific user or to members of a group.
#[derive(Debug, Clone, Copy, PartialEq, Eq, Structural)]
pub enum SubjectType {
    User,
    Group,
}

/// A single IAM policy record. `id` is the policy's UUID as a 128-bit value.
#[derive(Debug, Clone)]
pub struct Policy {
    pub id: u128,
    pub subject_name: String,
    pub subject_type: SubjectType,
    pub resource_pattern: String,
    pub action: String,
    pub effect: PolicyEffect,
    pub row_filter: Option<String>,
    pub column_mask_json: Option<String>,
    pub priority: i32,
}

/// A resource pattern matches a dataset: `*` matches everything, `ns.*`
/// every dataset of namespace `ns`, and any other pattern only the dataset
/// whose qualified name it is.
pub open spec fn resource_matches(pattern: Seq<char>, namespace: Seq<char>, name: Seq<char>) -> bool {
    if pattern == seq!['*'] {
        true
    } else if pattern.len() >= 2 && pattern[pattern.len() - 2] == '.' && pattern[pattern.len() - 1] == '*' {
        pattern.take(pattern.len() - 2) == namespace
    } else {
        pattern == qualified_name(namespace, name)
    }
}

/// An action pattern matches an action: `*` matches every action, any other
/// pattern the action that equals it up to ASCII case.
pub open spec fn action_matches(pattern: Seq<char>, action: Seq<char>) -> bool {
    pattern == seq!['*'] || ascii_eq_ignore_case(pattern, action)
}

/// A policy names a subject: a user policy names the user with its name
/// (or everyone, with `*`); a group policy names the members of that group.
pub open spec fn subject_matches(p: Policy, subject: Subject) -> bool {
    match p.subject_type {
        SubjectType::User => p.subject_name@ == seq!['*'] || p.subject_name@ == subject.user_id@,
        SubjectType::Group => exists|i: int|
            0 <= i < subject.groups@.len() && (#[trigger] subject.groups@[i])@ == p.subject_name@,
    }
}

/// A group policy names every member of its group, whatever the position of
/// the group among the member's groups.
pub proof fn law_group_policy_names_members(p: Policy, subject: Subject, i: int)
    requires
        p.subject_type == SubjectType::Group,
        0 <= i < subject.groups@.len(),
        subject.groups@[i]@ == p.subject_name@,
    ensures
        subject_matches(p, subject),
{
}

/// A group policy names no subject outside its group.
pub proof fn law_group_policy_skips_non_members(p: Policy, subject: Subject)
    requires
        p.subject_type == SubjectType::Group,
        forall|i: int| 0 <= i < subject.groups@.len() ==> (#[trigger] subject.groups@[i])@ != p.subject_name@,
    ensures
        !subject_matches(p, subject),
{
}

/// The characters `*`.
fn star() -> (r: Vec<char>)
    ensures
        r@ == seq!['*'],
{
    let mut r: Vec<char> = Vec::new();
    r.push('*');
    r
}

impl Policy {
    /// Whether the policy's resource pattern matches dataset `namespace.name`.
    pub fn matches_resource(&self, namespace: &str, name: &str) -> (r: bool)
        ensures
            r == resource_matches(self.resource_pattern@, namespace@, name@),
    {
        let pattern = chars_of(self.resource_pattern.as_str());
        let star = star();
        if chars_eq(pattern.as_slice(), star.as_slice()) {
            return true;
        }
        let ns = chars_of(namespace);
        let n = pattern.len();
        if n >= 2 && pattern[n - 2] == '.' && pattern[n - 1] == '*' {
            let mut prefix: Vec<char> = Vec::new();
            let mut i: usize = 0;
            while i < n - 2
                invariant
                    n == pattern@.len(),
                    n >= 2,
                    i <= n - 2,
                    prefix@ == pattern@.take(i as int),
                decreases n - 2 - i,
            {
                prefix.push(pattern[i]);
                assert(pattern@.take(i as int).push(pattern@[i as int]) =~= pattern@.take(i + 1));
                i += 1;
            }
            return chars_eq(prefix.as_slice(), ns.as_slice());
        }
        let mut full = ns;
        full.push('.');
        let nm = chars_of(name);
        let m = nm.len();
        let mut j: usize = 0;
        while j < m
            invariant
                m == nm@.len(),
                nm@ == name@,
                j <= m,
                full@ == qualified_name(namespace@, nm@.take(j as int)),
            decreases m - j,
        {
            full.push(nm[j]);
            assert(nm@.take(j as int).push(nm@[j as int]) =~= nm@.take(j + 1));
            assert(qualified_name(namespace@, nm@.take(j as int)).push(nm@[j as int])
                =~= qualified_name(namespace@, nm@.take(j + 1)));
            j += 1;
        }
        assert(nm@.take(m as int) =~= nm@);
        chars_eq(pattern.as_slice(), full.as_slice())
    }

    /// Whether the policy's action pattern matches `action`.
    pub fn matches_action(&self, action: &str) -> (r: bool)
        ensures
            r == action_matches(self.action@, action@),
    {
        let pattern = chars_of(self.action.as_str());
        let star = star();
        chars_eq(pattern.as_slice(), star.as_slice()) || eq_ignore_ascii_case(self.action.as_str(), action)
    }

    /// Whether the policy names `subject`.
    pub fn matches_subject(&self, subject: &Subject) -> (r: bool)
        ensures
            r == subject_matches(*self, *subject),
    {
        match &self.subject_type {
            SubjectType::User => {
                let name = chars_of(self.subject_name.as_str());
                let star = star();
                chars_eq(name.as_slice(), star.as_slice()) || self.subject_name == subject.user_id
            },
            SubjectType::Group => {
                let n = subject.groups.len();
                let mut i: usize = 0;
                while i < n
                    invariant
                        n == subject.groups@.len(),
                        self.subject_type is Group,
                        i <= n,
                        forall|k: int| 0 <= k < i ==> (#[trigger] subject.groups@[k])@ != self.subject_name@,
                    decreases n - i,
                {
                    if subject.groups[i] == self.subject_name {
                        assert((subject.groups@[i as int])@ == self.subject_name@);
                        return true;
                    }
                    i += 1;
                }
                false
            },
        }
    }
}

} // verus!
