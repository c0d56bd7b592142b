use elan::common::api::{server_error, HealthResponse};
use elan::common::catalog::{DatasetInfo, SourceType};
use elan::common::error::{ElanError, GrpcCode, GrpcStatus};
use elan::common::proto::{
    audit_row_to_proto, check_access, dataset_from_proto, dataset_to_proto, decision_to_proto, effect_text,
    filter_audit_rows, policy_from_proto, policy_to_proto, selects_event_type, AccessRequest, AuditRow, DatasetProto,
    PolicyProto,
};
use elan::iam::engine::SnapshotIamEngine;
use elan::iam::types::{AccessDecision, ColumnMask, MaskKind, Policy, PolicyEffect, SubjectType};

const ID_TEXT: &str = "67e55044-10b1-426f-9247-bb680e5fe0c8";
const ID: u128 = 0x67e5504410b1426f9247bb680e5fe0c8;

fn dataset() -> DatasetInfo {
    DatasetInfo {
        id: ID,
        name: "customers".to_string(),
        namespace: "crm".to_string(),
        source_type: SourceType::Csv,
        coordinator_id: "coord-1".to_string(),
        executor_endpoint: "exec:50055".to_string(),
        schema_ipc: vec![1, 2, 3],
        metadata: r#"{"path":"/data/customers.csv"}"#.to_string(),
    }
}

#[test]
fn source_type_names_round_trip() {
    for (t, name) in [
        (SourceType::Parquet, "parquet"),
        (SourceType::Csv, "csv"),
        (SourceType::Postgres, "postgres"),
        (SourceType::Delta, "delta"),
    ] {
        assert_eq!(t.as_str(), name);
        assert_eq!(t.to_string(), name);
        assert_eq!(SourceType::try_from(name).unwrap(), t);
    }
}

#[test]
fn unknown_source_type_is_a_config_error() {
    match SourceType::try_from("orc") {
        Err(ElanError::Config(m)) => assert_eq!(m, "unknown source type: orc"),
        other => panic!("unexpected {other:?}"),
    }
    assert!(SourceType::try_from("CSV").is_err());
}

#[test]
fn error_texts() {
    let cases = vec![
        (ElanError::DatasetNotFound { namespace: "crm".into(), name: "x".into() }, "dataset not found: crm.x"),
        (ElanError::AccessDenied { reason: "no".into() }, "access denied: no"),
        (ElanError::CoordinatorNotFound { id: "c1".into() }, "coordinator not found: c1"),
        (
            ElanError::Grpc { status: GrpcStatus { code: GrpcCode::Unavailable, message: "down".into() }, text: "down!".into() },
            "gRPC error: down!",
        ),
        (ElanError::Transport("refused".into()), "transport error: refused"),
        (ElanError::Serde("bad".into()), "serialization error: bad"),
        (ElanError::Uuid("short".into()), "uuid parse error: short"),
        (ElanError::Kafka("k".into()), "kafka error: k"),
        (ElanError::Config("c".into()), "config error: c"),
        (ElanError::Io("disk".into()), "io error: disk"),
        (ElanError::Other("plain".into()), "plain"),
    ];
    for (e, text) in cases {
        assert_eq!(e.to_string(), text);
    }
}

#[test]
fn errors_map_to_grpc_statuses() {
    let s = ElanError::DatasetNotFound { namespace: "crm".into(), name: "x".into() }.to_status();
    assert_eq!(s.code, GrpcCode::NotFound);
    assert_eq!(s.message, "dataset not found: crm.x");
    assert_eq!(ElanError::AccessDenied { reason: "r".into() }.to_status().code, GrpcCode::PermissionDenied);
    assert_eq!(ElanError::CoordinatorNotFound { id: "c".into() }.to_status().code, GrpcCode::NotFound);
    let g = ElanError::Grpc { status: GrpcStatus { code: GrpcCode::Unavailable, message: "down".into() }, text: "t".into() }
        .to_status();
    assert_eq!(g.code, GrpcCode::Unavailable);
    assert_eq!(g.message, "down");
    let k = ElanError::Kafka("boom".into()).to_status();
    assert_eq!(k.code, GrpcCode::Internal);
    assert_eq!(k.message, "kafka error: boom");
}

#[test]
fn health_and_server_error() {
    assert_eq!(HealthResponse::ok().status, "ok");
    let (status, body) = server_error("session build failed", "no central");
    assert_eq!(status, 500);
    assert_eq!(body.error, "session build failed");
    assert_eq!(body.detail.as_deref(), Some("no central"));
}

#[test]
fn dataset_message_round_trip() {
    let p = dataset_to_proto(dataset());
    assert_eq!(p.dataset_id, ID_TEXT);
    assert_eq!(p.source_type, "csv");
    assert_eq!(p.metadata_json, r#"{"path":"/data/customers.csv"}"#);
    let d = dataset_from_proto(p).unwrap();
    assert_eq!(d.id, ID);
    assert_eq!(d.name, "customers");
    assert_eq!(d.namespace, "crm");
    assert_eq!(d.source_type, SourceType::Csv);
    assert_eq!(d.coordinator_id, "coord-1");
    assert_eq!(d.executor_endpoint, "exec:50055");
    assert_eq!(d.schema_ipc, vec![1, 2, 3]);
    assert_eq!(d.metadata, r#"{"path":"/data/customers.csv"}"#);
}

fn proto(id: &str, source_type: &str, metadata: &str) -> DatasetProto {
    DatasetProto {
        dataset_id: id.to_string(),
        name: "n".to_string(),
        namespace: "ns".to_string(),
        source_type: source_type.to_string(),
        coordinator_id: "c".to_string(),
        executor_endpoint: "e:1".to_string(),
        arrow_schema_ipc: vec![],
        metadata_json: metadata.to_string(),
    }
}

#[test]
fn dataset_message_errors_and_metadata() {
    assert!(matches!(dataset_from_proto(proto("nope", "csv", "{}")), Err(ElanError::Uuid(_))));
    match dataset_from_proto(proto(ID_TEXT, "orc", "{}")) {
        Err(ElanError::Config(m)) => assert_eq!(m, "unknown source type: orc"),
        other => panic!("unexpected {other:?}"),
    }
    assert_eq!(dataset_from_proto(proto(ID_TEXT, "parquet", "not json")).unwrap().metadata, "null");
    assert_eq!(dataset_from_proto(proto(ID_TEXT, "parquet", "{ \"a\" : 1 }")).unwrap().metadata, r#"{"a":1}"#);
}

fn sample_policy() -> Policy {
    Policy {
        id: ID,
        subject_name: "analysts".to_string(),
        subject_type: SubjectType::Group,
        resource_pattern: "crm.*".to_string(),
        action: "SELECT".to_string(),
        effect: PolicyEffect::Deny,
        row_filter: Some("region = 'EU'".to_string()),
        column_mask_json: None,
        priority: 7,
    }
}

#[test]
fn policy_message_round_trip() {
    let m = policy_to_proto(sample_policy());
    assert_eq!(m.policy_id, ID_TEXT);
    assert_eq!(m.subject_type, "group");
    assert_eq!(m.effect, 1);
    assert_eq!(m.row_filter, "region = 'EU'");
    assert_eq!(m.column_mask_json, "");
    let p = policy_from_proto(m);
    assert_eq!(p.id, ID);
    assert_eq!(p.subject_name, "analysts");
    assert_eq!(p.subject_type, SubjectType::Group);
    assert_eq!(p.effect, PolicyEffect::Deny);
    assert_eq!(p.row_filter.as_deref(), Some("region = 'EU'"));
    assert!(p.column_mask_json.is_none());
    assert_eq!(p.priority, 7);
}

#[test]
fn policy_message_with_bad_id_gets_a_random_v4_id() {
    let m = PolicyProto {
        policy_id: "not-a-uuid".to_string(),
        subject_name: "alice".to_string(),
        subject_type: "whatever".to_string(),
        resource_pattern: "*".to_string(),
        action: "*".to_string(),
        effect: 5,
        row_filter: String::new(),
        column_mask_json: String::new(),
        priority: 0,
    };
    let p = policy_from_proto(m);
    assert_eq!((p.id >> 76) & 0xf, 4);
    assert_eq!(p.subject_type, SubjectType::User);
    assert_eq!(p.effect, PolicyEffect::Allow);
    assert!(p.row_filter.is_none());
    assert_eq!(effect_text(1), "Deny");
    assert_eq!(effect_text(0), "Allow");
    assert_eq!(effect_text(-3), "Allow");
}

#[test]
fn decisions_become_messages() {
    let d = decision_to_proto(AccessDecision::Deny { reason: "because".into() });
    assert!(!d.allowed);
    assert_eq!(d.reason, "because");
    assert_eq!(d.row_filter, "");
    assert_eq!(d.column_mask_json, "");
    let a = decision_to_proto(AccessDecision::Allow {
        row_filter: Some("x > 1".into()),
        column_mask: Some(ColumnMask(vec![("email".into(), MaskKind::Redact)])),
    });
    assert!(a.allowed);
    assert_eq!(a.reason, "");
    assert_eq!(a.row_filter, "x > 1");
    assert_eq!(a.column_mask_json, r#"{"email":"REDACT"}"#);
}

#[test]
fn check_access_asks_the_engine() {
    let engine = SnapshotIamEngine::new(vec![]);
    let r = check_access(
        &engine,
        AccessRequest {
            user_id: "bob".into(),
            groups: vec![],
            namespace: "crm".into(),
            dataset: "customers".into(),
            action: "SELECT".into(),
        },
    );
    assert!(!r.allowed);
    assert_eq!(r.reason, "No Allow policy for bob on crm.customers");
}

fn row(id: &str, event_type: &str, session: Option<&str>) -> AuditRow {
    AuditRow {
        id: id.to_string(),
        event_type: event_type.to_string(),
        occurred_at: "2024-01-01T00:00:00+00:00".to_string(),
        source_service: "elan-query".to_string(),
        user_id: "alice".to_string(),
        session_id: session.map(|s| s.to_string()),
        payload_json: "{}".to_string(),
    }
}

#[test]
fn audit_rows_are_filtered_by_event_type() {
    let rows = vec![row("1", "QuerySubmitted", None), row("2", "QueryFailed", Some("s")), row("3", "QuerySubmitted", None)];
    let all = filter_audit_rows(rows.clone(), &vec![]);
    assert_eq!(all.len(), 3);
    let some = filter_audit_rows(rows, &vec!["QuerySubmitted".to_string()]);
    assert_eq!(some.iter().map(|r| r.id.as_str()).collect::<Vec<_>>(), vec!["1", "3"]);
    assert!(selects_event_type(&vec![], &"Anything".to_string()));
    assert!(!selects_event_type(&vec!["A".to_string()], &"B".to_string()));
}

#[test]
fn audit_row_message_has_empty_session_for_none() {
    let p = audit_row_to_proto(row("9", "AccessDenied", None));
    assert_eq!(p.event_id, "9");
    assert_eq!(p.session_id, "");
    assert!(p.occurred_at.is_none());
    let q = audit_row_to_proto(row("9", "AccessDenied", Some("sess")));
    assert_eq!(q.session_id, "sess");
}

#[test]
fn later_mask_entry_for_a_column_counts() {
    let d = decision_to_proto(AccessDecision::Allow {
        row_filter: None,
        column_mask: Some(ColumnMask(vec![("a".into(), MaskKind::Redact), ("a".into(), MaskKind::Sha256)])),
    });
    assert_eq!(d.column_mask_json, r#"{"a":"SHA256"}"#);
    assert_eq!(d.row_filter, "");
}
