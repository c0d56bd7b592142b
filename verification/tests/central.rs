use elan::central::catalog::{row_to_dataset, search_datasets, DatasetRow};
use elan::central::config::{load, CentralConfig};
use elan::central::iam_store::{list_policies, row_to_policy, PolicyRow};
use elan::central::services::{
    audit_row_of, create_policy_reply, dataset_upsert, datasets_to_protos, get_dataset_reply, internal, listing_subject, namespace_filter,
    new_policy, policies_to_protos, reload_engine, since_text, RECENT_AUDIT_LIMIT,
};
use elan::iam::engine::{IamEngine, SnapshotIamEngine};
use elan::iam::types::{Policy, ResourceId, Subject};
use elan::query::session::decode_policies;
use elan::common::catalog::{DatasetInfo, SourceType};
use elan::common::error::GrpcCode;
use elan::common::proto::{AuditEventProto, PolicyProto};
use elan::coordinator::registration::DatasetRegistration;
use elan::iam::types::{PolicyEffect, SubjectType};

const ID_TEXT: &str = "67e55044-10b1-426f-9247-bb680e5fe0c8";

fn drow(id: &str, st: &str, metadata: Option<&str>) -> DatasetRow {
    DatasetRow {
        id: id.to_string(),
        name: "customers".to_string(),
        namespace: "crm".to_string(),
        source_type: st.to_string(),
        coordinator_id: "c1".to_string(),
        executor_endpoint: "e:1".to_string(),
        arrow_schema_ipc: vec![9],
        metadata_json: metadata.map(|m| m.to_string()),
    }
}

fn ds(ns: &str, name: &str) -> DatasetInfo {
    DatasetInfo {
        id: 1,
        name: name.to_string(),
        namespace: ns.to_string(),
        source_type: SourceType::Csv,
        coordinator_id: "c1".to_string(),
        executor_endpoint: "e:1".to_string(),
        schema_ipc: vec![],
        metadata: "null".to_string(),
    }
}

#[test]
fn central_config_defaults_and_overrides() {
    let d = CentralConfig::default();
    assert_eq!(d.grpc_addr, "0.0.0.0:50051");
    assert_eq!(d.http_addr, "0.0.0.0:8080");
    assert_eq!(d.database_url, "sqlite://elan_central.db");
    let c = load(None, &vec![]).unwrap();
    assert_eq!(c.grpc_addr, "0.0.0.0:50051");
    assert_eq!(c.http_addr, "0.0.0.0:8080");
    assert_eq!(c.database_url, "sqlite://elan_central.db");
    let env = vec![("ELAN_CENTRAL__DATABASE_URL".to_string(), "sqlite://other.db".to_string())];
    let c = load(Some("grpc_addr = \"127.0.0.1:1\"\n"), &env).unwrap();
    assert_eq!(c.grpc_addr, "127.0.0.1:1");
    assert_eq!(c.http_addr, "0.0.0.0:8080");
    assert_eq!(c.database_url, "sqlite://other.db");
    assert!(load(Some("grpc_addr = [1, 2]"), &vec![]).is_err());
}

#[test]
fn central_config_later_variable_wins() {
    let env = vec![
        ("ELAN_CENTRAL__HTTP_ADDR".to_string(), "1.1.1.1:1".to_string()),
        ("Elan_Central__Http_Addr".to_string(), "2.2.2.2:2".to_string()),
    ];
    let c = load(None, &env).unwrap();
    assert_eq!(c.grpc_addr, "0.0.0.0:50051");
    assert_eq!(c.http_addr, "2.2.2.2:2");
    assert_eq!(c.database_url, "sqlite://elan_central.db");
    let c = load(Some("http_addr = \"3.3.3.3:3\"\n"), &env).unwrap();
    assert_eq!(c.http_addr, "2.2.2.2:2");
}

#[test]
fn dataset_rows_map_to_datasets() {
    let d = row_to_dataset(drow(ID_TEXT, "parquet", Some("{\"k\": [1, 2]}"))).unwrap();
    assert_eq!(d.id, 0x67e5504410b1426f9247bb680e5fe0c8);
    assert_eq!(d.source_type, SourceType::Parquet);
    assert_eq!(d.schema_ipc, vec![9]);
    assert_eq!(d.metadata, "{\"k\":[1,2]}");
    assert_eq!(row_to_dataset(drow(ID_TEXT, "csv", None)).unwrap().metadata, "null");
}

#[test]
fn dataset_row_errors() {
    assert!(row_to_dataset(drow("x", "csv", None)).is_err());
    assert_eq!(row_to_dataset(drow(ID_TEXT, "orc", None)).unwrap_err(), "config error: unknown source type: orc");
    assert!(row_to_dataset(drow(ID_TEXT, "csv", Some("{oops"))).is_err());
}

#[test]
fn search_ignores_case_in_name_and_namespace() {
    let all = vec![ds("CRM", "Customers"), ds("finance", "transactions"), ds("ops", "crm_sync")];
    let found: Vec<String> = search_datasets(all.clone(), "crm").iter().map(|d| d.name.clone()).collect();
    assert_eq!(found, vec!["Customers".to_string(), "crm_sync".to_string()]);
    let found: Vec<String> = search_datasets(all.clone(), "TRANS").iter().map(|d| d.name.clone()).collect();
    assert_eq!(found, vec!["transactions".to_string()]);
    assert_eq!(search_datasets(all.clone(), "").len(), 3);
    assert_eq!(search_datasets(all.clone(), "").len(), 3);
    assert!(search_datasets(all, "zzz").is_empty());
}

fn prow(id: &str, subject: &str, st: &str, effect: &str, priority: i64) -> PolicyRow {
    PolicyRow {
        id: id.to_string(),
        subject_name: subject.to_string(),
        subject_type: st.to_string(),
        resource_pattern: "*".to_string(),
        action: "SELECT".to_string(),
        effect: effect.to_string(),
        row_filter: None,
        column_mask_json: None,
        priority,
    }
}

#[test]
fn policy_rows_map_to_policies() {
    let p = row_to_policy(prow(ID_TEXT, "analysts", "group", "Deny", 3)).unwrap();
    assert_eq!(p.subject_type, SubjectType::Group);
    assert_eq!(p.effect, PolicyEffect::Deny);
    assert_eq!(p.priority, 3);
    let q = row_to_policy(prow(ID_TEXT, "alice", "role", "deny", (1i64 << 32) + 5)).unwrap();
    assert_eq!(q.subject_type, SubjectType::User);
    assert_eq!(q.effect, PolicyEffect::Allow);
    assert_eq!(q.priority, 5);
    assert!(row_to_policy(prow("bad", "a", "user", "Allow", 0)).is_err());
}

#[test]
fn policy_listing_filters_by_subject_and_fails_on_bad_ids() {
    let rows = vec![
        prow("00000000-0000-0000-0000-000000000001", "alice", "user", "Allow", 9),
        prow("00000000-0000-0000-0000-000000000002", "bob", "user", "Allow", 5),
        prow("bad", "carol", "user", "Allow", 1),
    ];
    let alice = list_policies(rows.clone(), Some("alice")).unwrap();
    assert_eq!(alice.len(), 1);
    assert_eq!(alice[0].id, 1);
    assert!(list_policies(rows.clone(), None).is_err());
    assert!(list_policies(rows, Some("dave")).unwrap().is_empty());
}

#[test]
fn dataset_lookup_replies() {
    let ok = get_dataset_reply("crm", "customers", Ok(Some(ds("crm", "customers")))).unwrap();
    assert_eq!(ok.dataset_id, "00000000-0000-0000-0000-000000000001");
    assert_eq!(ok.source_type, "csv");
    let missing = get_dataset_reply("crm", "nope", Ok(None)).unwrap_err();
    assert_eq!(missing.code, GrpcCode::NotFound);
    assert_eq!(missing.message, "dataset not found: crm.nope");
    let failed = get_dataset_reply("crm", "x", Err("db locked".to_string())).unwrap_err();
    assert_eq!(failed.code, GrpcCode::Internal);
    assert_eq!(failed.message, "db locked");
    assert_eq!(internal("m".to_string()).code, GrpcCode::Internal);
}

#[test]
fn listing_requests_and_messages() {
    assert_eq!(namespace_filter(&String::new()), None);
    assert_eq!(namespace_filter(&"crm".to_string()).as_deref(), Some("crm"));
    let ps = datasets_to_protos(vec![ds("a", "x"), ds("b", "y")]);
    assert_eq!(ps.iter().map(|p| p.name.as_str()).collect::<Vec<_>>(), vec!["x", "y"]);
}

#[test]
fn registration_requests_become_store_records() {
    let req = DatasetRegistration {
        coordinator_id: "c1".into(),
        dataset_id: ID_TEXT.into(),
        name: "customers".into(),
        namespace: "crm".into(),
        source_type: "csv".into(),
        arrow_schema_ipc: vec![1],
        metadata_json: String::new(),
    };
    let u = dataset_upsert(req.clone());
    assert_eq!(u.metadata_json, None);
    assert_eq!(u.name, "customers");
    let mut with_meta = req;
    with_meta.metadata_json = "{}".into();
    assert_eq!(dataset_upsert(with_meta).metadata_json.as_deref(), Some("{}"));
}

#[test]
fn policy_creation_requests() {
    let p = new_policy(PolicyProto {
        policy_id: String::new(),
        subject_name: "alice".into(),
        subject_type: "user".into(),
        resource_pattern: "crm.*".into(),
        action: "SELECT".into(),
        effect: 1,
        row_filter: "x > 1".into(),
        column_mask_json: String::new(),
        priority: 4,
    });
    assert_eq!(p.effect, "Deny");
    assert_eq!(p.row_filter.as_deref(), Some("x > 1"));
    assert_eq!(p.column_mask_json, None);
    assert_eq!(p.priority, 4);
}

#[test]
fn published_events_are_stored_with_receive_time() {
    let e = AuditEventProto {
        event_id: "e1".into(),
        event_type: "QueryFailed".into(),
        occurred_at: None,
        source_service: "elan-query".into(),
        user_id: "alice".into(),
        session_id: String::new(),
        payload_json: "{}".into(),
    };
    let r = audit_row_of(&e, "2024-05-01T00:00:00+00:00".to_string());
    assert_eq!(r.id, "e1");
    assert_eq!(r.occurred_at, "2024-05-01T00:00:00+00:00");
    assert_eq!(r.session_id, None);
}

#[test]
fn replay_start_times() {
    assert_eq!(since_text(None), None);
    assert_eq!(since_text(Some((0, 0))).as_deref(), Some("1970-01-01T00:00:00+00:00"));
    assert_eq!(since_text(Some((86_400, 500_000_000))).as_deref(), Some("1970-01-02T00:00:00.500+00:00"));
    assert_eq!(since_text(Some((0, -1))).as_deref(), Some(""));
    assert_eq!(RECENT_AUDIT_LIMIT, 100);
}

fn central_policy(id: u128, subject: &str, effect: PolicyEffect, row_filter: Option<&str>) -> Policy {
    Policy {
        id,
        subject_name: subject.to_string(),
        subject_type: SubjectType::User,
        resource_pattern: "crm.*".to_string(),
        action: "SELECT".to_string(),
        effect,
        row_filter: row_filter.map(|f| f.to_string()),
        column_mask_json: None,
        priority: 3,
    }
}

#[test]
fn listed_policies_read_back() {
    assert_eq!(listing_subject(&String::new()), None);
    assert_eq!(listing_subject(&"alice".to_string()), Some("alice".to_string()));
    let listed = vec![
        central_policy(0x67e5504410b1426f9247bb680e5fe0c8, "alice", PolicyEffect::Allow, Some("region = 'EU'")),
        central_policy(2, "bob", PolicyEffect::Deny, None),
    ];
    let protos = policies_to_protos(listed.clone());
    assert_eq!(protos.len(), 2);
    assert_eq!(protos[0].policy_id, ID_TEXT);
    assert_eq!(protos[0].effect, 0);
    assert_eq!(protos[0].row_filter, "region = 'EU'");
    assert_eq!(protos[1].effect, 1);
    assert_eq!(protos[1].row_filter, "");
    let loaded = decode_policies(protos);
    assert_eq!(loaded.len(), 2);
    for (a, b) in listed.iter().zip(loaded.iter()) {
        assert_eq!(a.id, b.id);
        assert_eq!(a.subject_name, b.subject_name);
        assert_eq!(a.effect, b.effect);
        assert_eq!(a.row_filter, b.row_filter);
        assert_eq!(a.priority, b.priority);
    }
}

#[test]
fn policy_creation_reloads_the_engine() {
    let alice = Subject { user_id: "alice".to_string(), groups: vec![] };
    let res = ResourceId { namespace: "crm".to_string(), name: "customers".to_string() };
    let mut engine = SnapshotIamEngine::new(vec![]);
    let e = create_policy_reply(&mut engine, Err("db down".to_string()), Ok(vec![]));
    assert_eq!(e.unwrap_err().code, GrpcCode::Internal);
    let listed = vec![central_policy(1, "alice", PolicyEffect::Allow, None)];
    let e = create_policy_reply(&mut engine, Ok("p1".to_string()), Err("list failed".to_string())).unwrap_err();
    assert_eq!(e.message, "list failed");
    assert!(!engine.check(&alice, &res, "SELECT").is_allowed());
    let r = create_policy_reply(&mut engine, Ok("p1".to_string()), Ok(listed.clone()));
    assert_eq!(r.unwrap(), "p1");
    let fresh = SnapshotIamEngine::new(listed.clone());
    assert!(engine.check(&alice, &res, "SELECT").is_allowed());
    assert_eq!(engine.check(&alice, &res, "SELECT").is_allowed(), fresh.check(&alice, &res, "SELECT").is_allowed());
    assert!(reload_engine(&mut engine, Ok(vec![])).is_ok());
    assert!(!engine.check(&alice, &res, "SELECT").is_allowed());
}
