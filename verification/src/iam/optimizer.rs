//! The rule that enforces IAM on query plans: every remote table scan the
//! requesting subject may not SELECT from is replaced by an empty scan.

use vstd::prelude::*;
use crate::iam::engine::{AllowAllEngine, IamEngine};
use crate::iam::types::{AccessDecision, ResourceId, Subject};

verus! {

/// Implemented by plan nodes that scan one remote dataset.
pub trait RemoteScan {
    /// The namespace of the scanned dataset.
    spec fn scan_namespace(&self) -> Seq<char>;

    /// The name of the scanned dataset.
    spec fn scan_name(&self) -> Seq<char>;

    /// The namespace of the scanned dataset.
    fn dataset_namespace(&self) -> (r: &str)
        ensures
            r@ == self.scan_namespace();

    /// The name of the scanned dataset.
    fn dataset_name(&self) -> (r: &str)
        ensures
            r@ == self.scan_name();
}

/// What the rule reads of a physical plan node: its name, the dataset it
/// scans (as the extractor reports it, for nodes of the remote scan kind) and
/// its children.
#[derive(Debug)]
pub struct PlanNode {
    pub name: String,
    pub dataset: Option<(String, String)>,
    pub children: Vec<PlanNode>,
}

/// The rewritten plan: a node is either replaced by an empty scan of the same
/// schema, or kept with its children rewritten.
#[derive(Debug)]
pub enum PlanRewrite {
    Empty,
    Keep(Vec<PlanRewrite>),
}

/// The node is a remote scan that the subject may not SELECT from.
pub open spec fn denied_scan<E: IamEngine>(engine: E, subject: Subject, node_name: Seq<char>, plan: PlanNode) -> bool {
    &&& plan.name@ == node_name
    &&& plan.dataset is Some
    &&& engine.decision(subject, (plan.dataset->0).0@, (plan.dataset->0).1@, "SELECT"@) is Deny
}

/// `r` is the rewrite of `plan`: denied scans become empty, every other node
/// stays, with each child rewritten in turn.
pub open spec fn rewrites_to<E: IamEngine>(engine: E, subject: Subject, node_name: Seq<char>, plan: PlanNode, r: PlanRewrite) -> bool
    decreases plan,
{
    if denied_scan(engine, subject, node_name, plan) {
        r is Empty
    } else {
        match r {
            PlanRewrite::Empty => false,
            PlanRewrite::Keep(cs) => {
                &&& cs@.len() == plan.children@.len()
                &&& forall|i: int| 0 <= i < cs@.len() ==> {
                    &&& #[trigger] decreases_to!(plan => plan.children@[i])
                    &&& rewrites_to(engine, subject, node_name, plan.children@[i], cs@[i])
                }
            },
        }
    }
}

/// Rewrites `plan` bottom-up, deciding every remote scan node named `node_name`.
pub fn apply_iam<E: IamEngine>(plan: &PlanNode, engine: &E, subject: &Subject, node_name: &str) -> (r: PlanRewrite)
    ensures
        rewrites_to(*engine, *subject, node_name@, *plan, r),
    decreases plan,
{
    let names_match = crate::text::str_eq(plan.name.as_str(), node_name);
    if names_match {
        match &plan.dataset {
            Some((namespace, name)) => {
                let resource = ResourceId { namespace: namespace.clone(), name: name.clone() };
                match engine.check(subject, &resource, "SELECT") {
                    AccessDecision::Deny { .. } => {
                        return PlanRewrite::Empty;
                    },
                    AccessDecision::Allow { .. } => {},
                }
            },
            None => {},
        }
    }
    let n = plan.children.len();
    let mut out: Vec<PlanRewrite> = Vec::new();
    let mut i: usize = 0;
    while i < n
        invariant
            n == plan.children@.len(),
            i <= n,
            out@.len() == i,
            forall|k: int| 0 <= k < i ==> rewrites_to(*engine, *subject, node_name@, plan.children@[k], #[trigger] out@[k]),
        decreases n - i,
    {
        proof {
            assert(decreases_to!(*plan => plan.children@[i as int]));
        }
        let c = apply_iam(&plan.children[i], engine, subject, node_name);
        out.push(c);
        i += 1;
    }
    PlanRewrite::Keep(out)
}

/// `r` keeps every node of `plan`, at every depth.
pub open spec fn keeps_every_node(plan: PlanNode, r: PlanRewrite) -> bool
    decreases plan,
{
    match r {
        PlanRewrite::Empty => false,
        PlanRewrite::Keep(cs) => {
            &&& cs@.len() == plan.children@.len()
            &&& forall|i: int| 0 <= i < cs@.len() ==> {
                &&& #[trigger] decreases_to!(plan => plan.children@[i])
                &&& keeps_every_node(plan.children@[i], cs@[i])
            }
        },
    }
}

/// With IAM disabled nothing is hidden: the rewrite keeps every node.
pub proof fn law_allow_all_keeps_plan(subject: Subject, node_name: Seq<char>, plan: PlanNode, r: PlanRewrite)
    requires
        rewrites_to(AllowAllEngine, subject, node_name, plan, r),
    ensures
        keeps_every_node(plan, r),
    decreases plan,
{
    match r {
        PlanRewrite::Keep(cs) => {
            assert forall|i: int| 0 <= i < cs@.len() implies {
                &&& #[trigger] decreases_to!(plan => plan.children@[i])
                &&& keeps_every_node(plan.children@[i], cs@[i])
            } by {
                assert(decreases_to!(plan => plan.children@[i]));
                law_allow_all_keeps_plan(subject, node_name, plan.children@[i], cs@[i]);
            }
        },
        PlanRewrite::Empty => {},
    }
}

/// Physical optimizer rule that enforces IAM on all remote table scans.
pub struct IamFilterRule<E: IamEngine> {
    engine: E,
    subject: Subject,
    remote_scan_node_name: String,
}

impl<E: IamEngine> IamFilterRule<E> {
    /// The engine the rule asks.
    pub closed spec fn engine(&self) -> E {
        self.engine
    }

    /// The subject on whose behalf the rule asks.
    pub closed spec fn subject(&self) -> Subject {
        self.subject
    }

    /// The name of the plan nodes the rule intercepts.
    pub closed spec fn node_name(&self) -> Seq<char> {
        self.remote_scan_node_name@
    }

    /// A rule for `subject` asking `engine`, intercepting `RemoteTableScanExec` nodes.
    pub fn new(engine: E, subject: Subject) -> (r: Self)
        ensures
            r.engine() == engine,
            r.subject() == subject,
            r.node_name() == "RemoteTableScanExec"@,
    {
        IamFilterRule { engine, subject, remote_scan_node_name: "RemoteTableScanExec".to_string() }
    }

    /// Rewrites a plan.
    pub fn optimize(&self, plan: &PlanNode) -> (r: PlanRewrite)
        ensures
            rewrites_to(self.engine(), self.subject(), self.node_name(), *plan, r),
    {
        apply_iam(plan, &self.engine, &self.subject, self.remote_scan_node_name.as_str())
    }

    /// The rule's name.
    pub fn name(&self) -> (r: &'static str)
        ensures
            r@ == "IamFilterRule"@,
    {
        "IamFilterRule"
    }

    /// The rule keeps every node's schema.
    pub fn schema_check(&self) -> (r: bool)
        ensures
            r,
    {
        true
    }
}

} // verus!
