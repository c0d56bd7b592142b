use elan::iam::catalog_filter::is_visible;
use elan::iam::engine::{AllowAllEngine, IamEngine, SnapshotIamEngine};
use elan::iam::optimizer::{apply_iam, IamFilterRule, PlanNode, PlanRewrite};
use elan::iam::types::{AccessDecision, MaskKind, Policy, PolicyEffect, ResourceId, Subject, SubjectType};

fn user(name: &str) -> Subject {
    Subject { user_id: name.to_string(), groups: vec![] }
}

fn member(name: &str, groups: &[&str]) -> Subject {
    Subject { user_id: name.to_string(), groups: groups.iter().map(|g| g.to_string()).collect() }
}

fn res(ns: &str, name: &str) -> ResourceId {
    ResourceId { namespace: ns.to_string(), name: name.to_string() }
}

fn policy(id: u128, subject: &str, resource: &str, action: &str, effect: PolicyEffect, priority: i32) -> Policy {
    Policy {
        id,
        subject_name: subject.to_string(),
        subject_type: SubjectType::User,
        resource_pattern: resource.to_string(),
        action: action.to_string(),
        effect,
        row_filter: None,
        column_mask_json: None,
        priority,
    }
}

fn reason(d: &AccessDecision) -> String {
    match d {
        AccessDecision::Deny { reason } => reason.clone(),
        AccessDecision::Allow { .. } => panic!("expected a denial"),
    }
}

#[test]
fn qualified_name_joins_namespace_and_name() {
    assert_eq!(res("crm", "customers").qualified(), "crm.customers");
    assert_eq!(res("", "t").qualified(), ".t");
}

#[test]
fn resource_patterns_match_exact_namespace_and_wildcard() {
    let p = policy(1, "alice", "crm.customers", "SELECT", PolicyEffect::Allow, 0);
    assert!(p.matches_resource("crm", "customers"));
    assert!(!p.matches_resource("crm", "orders"));
    let ns = policy(1, "alice", "crm.*", "SELECT", PolicyEffect::Allow, 0);
    assert!(ns.matches_resource("crm", "orders"));
    assert!(!ns.matches_resource("finance", "orders"));
    assert!(!ns.matches_resource("crmx", "orders"));
    let all = policy(1, "alice", "*", "SELECT", PolicyEffect::Allow, 0);
    assert!(all.matches_resource("finance", "transactions"));
}

#[test]
fn actions_match_ignoring_ascii_case_or_by_wildcard() {
    let p = policy(1, "alice", "*", "select", PolicyEffect::Allow, 0);
    assert!(p.matches_action("SELECT"));
    assert!(!p.matches_action("INSERT"));
    let any = policy(1, "alice", "*", "*", PolicyEffect::Allow, 0);
    assert!(any.matches_action("DELETE"));
}

#[test]
fn subjects_match_by_user_wildcard_or_group() {
    let p = policy(1, "alice", "*", "*", PolicyEffect::Allow, 0);
    assert!(p.matches_subject(&user("alice")));
    assert!(!p.matches_subject(&user("bob")));
    let star = policy(1, "*", "*", "*", PolicyEffect::Allow, 0);
    assert!(star.matches_subject(&user("bob")));
    let mut g = policy(1, "analysts", "*", "*", PolicyEffect::Allow, 0);
    g.subject_type = SubjectType::Group;
    assert!(g.matches_subject(&member("carol", &["staff", "analysts"])));
    assert!(!g.matches_subject(&member("analysts", &["staff"])));
}

#[test]
fn no_policy_means_deny_with_reason() {
    let engine = SnapshotIamEngine::new(vec![]);
    let d = engine.check(&user("alice"), &res("crm", "customers"), "SELECT");
    assert!(!d.is_allowed());
    assert_eq!(reason(&d), "No Allow policy for alice on crm.customers");
}

#[test]
fn allow_policy_grants_with_row_filter() {
    let mut p = policy(7, "alice", "crm.*", "SELECT", PolicyEffect::Allow, 0);
    p.row_filter = Some("region = 'EU'".to_string());
    let engine = SnapshotIamEngine::new(vec![p]);
    match engine.check(&user("alice"), &res("crm", "customers"), "select") {
        AccessDecision::Allow { row_filter, column_mask } => {
            assert_eq!(row_filter.as_deref(), Some("region = 'EU'"));
            assert!(column_mask.is_none());
        }
        AccessDecision::Deny { reason } => panic!("denied: {reason}"),
    }
}

#[test]
fn deny_overrides_allow_of_higher_priority() {
    let allow = policy(1, "alice", "*", "*", PolicyEffect::Allow, 100);
    let deny = policy(0x2a, "alice", "crm.customers", "SELECT", PolicyEffect::Deny, 1);
    let engine = SnapshotIamEngine::new(vec![allow, deny]);
    let d = engine.check(&user("alice"), &res("crm", "customers"), "SELECT");
    assert_eq!(reason(&d), "Deny policy '00000000-0000-0000-0000-00000000002a' matched for crm.customers");
    let other = engine.check(&user("alice"), &res("crm", "orders"), "SELECT");
    assert!(other.is_allowed());
}

#[test]
fn higher_priority_allow_decides_and_first_listed_breaks_ties() {
    let mut low = policy(1, "alice", "*", "*", PolicyEffect::Allow, 1);
    low.row_filter = Some("low".to_string());
    let mut high = policy(2, "alice", "*", "*", PolicyEffect::Allow, 5);
    high.row_filter = Some("high".to_string());
    let mut tie = policy(3, "alice", "*", "*", PolicyEffect::Allow, 5);
    tie.row_filter = Some("tie".to_string());
    let engine = SnapshotIamEngine::new(vec![low, high, tie]);
    match engine.check(&user("alice"), &res("a", "b"), "SELECT") {
        AccessDecision::Allow { row_filter, .. } => assert_eq!(row_filter.as_deref(), Some("high")),
        AccessDecision::Deny { .. } => panic!("denied"),
    }
}

#[test]
fn column_mask_keeps_known_kinds_only() {
    let mut p = policy(1, "alice", "*", "*", PolicyEffect::Allow, 0);
    p.column_mask_json = Some(r#"{"email":"REDACT","ssn":"SHA256","name":"UPPER"}"#.to_string());
    let engine = SnapshotIamEngine::new(vec![p]);
    match engine.check(&user("alice"), &res("crm", "customers"), "SELECT") {
        AccessDecision::Allow { column_mask: Some(mask), .. } => {
            let mut cols = mask.0.clone();
            cols.sort_by(|a, b| a.0.cmp(&b.0));
            assert_eq!(cols.len(), 2);
            assert_eq!(cols[0].0, "email");
            assert_eq!(cols[0].1, MaskKind::Redact);
            assert_eq!(cols[1].0, "ssn");
            assert_eq!(cols[1].1, MaskKind::Sha256);
        }
        _ => panic!("expected a mask"),
    }
}

#[test]
fn column_mask_that_is_not_json_is_dropped() {
    let mut p = policy(1, "alice", "*", "*", PolicyEffect::Allow, 0);
    p.column_mask_json = Some("not json".to_string());
    let engine = SnapshotIamEngine::new(vec![p]);
    match engine.check(&user("alice"), &res("crm", "customers"), "SELECT") {
        AccessDecision::Allow { column_mask, .. } => assert!(column_mask.is_none()),
        _ => panic!("expected allow"),
    }
}

#[test]
fn reload_replaces_policies() {
    let mut engine = SnapshotIamEngine::new(vec![]);
    assert!(!engine.check(&user("alice"), &res("crm", "c"), "SELECT").is_allowed());
    engine.reload(vec![policy(1, "alice", "*", "*", PolicyEffect::Allow, 0)]);
    assert!(engine.check(&user("alice"), &res("crm", "c"), "SELECT").is_allowed());
    engine.reload(vec![]);
    assert!(!engine.check(&user("alice"), &res("crm", "c"), "SELECT").is_allowed());
}

#[test]
fn allow_all_engine_allows_everything() {
    let engine = AllowAllEngine;
    let d = engine.check(&user("anyone"), &res("x", "y"), "DROP");
    match d {
        AccessDecision::Allow { row_filter, column_mask } => {
            assert!(row_filter.is_none());
            assert!(column_mask.is_none());
        }
        _ => panic!("denied"),
    }
}

#[test]
fn catalog_filter_shows_only_selectable_datasets() {
    let engine = SnapshotIamEngine::new(vec![policy(1, "alice", "crm.customers", "SELECT", PolicyEffect::Allow, 0)]);
    assert!(is_visible(&engine, &user("alice"), "crm", "customers"));
    assert!(!is_visible(&engine, &user("alice"), "crm", "orders"));
    assert!(!is_visible(&engine, &user("bob"), "crm", "customers"));
}

fn scan(ns: &str, name: &str) -> PlanNode {
    PlanNode {
        name: "RemoteTableScanExec".to_string(),
        dataset: Some((ns.to_string(), name.to_string())),
        children: vec![],
    }
}

#[test]
fn optimizer_empties_denied_scans_and_keeps_the_rest() {
    let engine = SnapshotIamEngine::new(vec![policy(1, "alice", "crm.*", "SELECT", PolicyEffect::Allow, 0)]);
    let plan = PlanNode {
        name: "HashJoinExec".to_string(),
        dataset: None,
        children: vec![scan("crm", "customers"), scan("finance", "transactions")],
    };
    match apply_iam(&plan, &engine, &user("alice"), "RemoteTableScanExec") {
        PlanRewrite::Keep(children) => {
            assert_eq!(children.len(), 2);
            assert!(matches!(&children[0], PlanRewrite::Keep(c) if c.is_empty()));
            assert!(matches!(&children[1], PlanRewrite::Empty));
        }
        PlanRewrite::Empty => panic!("root replaced"),
    }
}

#[test]
fn optimizer_rule_uses_remote_scan_node_name() {
    let rule = IamFilterRule::new(AllowAllEngine, user("alice"));
    assert_eq!(rule.name(), "IamFilterRule");
    assert!(rule.schema_check());
    let denied_everything = IamFilterRule::new(SnapshotIamEngine::new(vec![]), user("alice"));
    assert!(matches!(denied_everything.optimize(&scan("a", "b")), PlanRewrite::Empty));
    let other = PlanNode { name: "OtherScan".to_string(), dataset: Some(("a".to_string(), "b".to_string())), children: vec![] };
    assert!(matches!(denied_everything.optimize(&other), PlanRewrite::Keep(_)));
    assert!(matches!(rule.optimize(&scan("a", "b")), PlanRewrite::Keep(_)));
}
