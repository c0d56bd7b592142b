use elan::assoc::NamedMap;
use elan::audit::event::AuditPayload;
use elan::common::api::QueryRequest;
use elan::common::catalog::{DatasetInfo, SourceType};
use elan::common::error::{ElanError, GrpcCode, GrpcStatus};
use elan::common::proto::{DatasetProto, PolicyProto};
use elan::iam::engine::{AllowAllEngine, IamEngine, SnapshotIamEngine};
use elan::iam::types::{Policy, PolicyEffect, Subject, SubjectType};
use elan::query::catalog::{ElanSchemaProvider, ElanTableProvider, FetchError, FilterPushDown, TableLookup};
use elan::query::config::{load, QueryConfig};
use elan::schema::{decode_schema, placeholder_fields, placeholder_schema, registration_schema, schema_or_empty, serialize_schema, FieldInfo};
use elan::query::http::{
    audit_subject, batches_to_response, begin_query, catalog_response, on_executed, on_session, completed_event, extract_subject, failed_event,
    is_access_denied, query_failure, rows_returned, session_id, submitted_event, ResultBatch,
};
use elan::query::remote_scan::{
    describe, dispatch, executor_error, executor_sql_url, expr_to_sql, parse_endpoint, reported_schema, RemoteTableScanExec, SqlExpr, SqlOp,
};
use elan::query::session::{
    build_catalog, decode_datasets, decode_policies, engine_from_load, group_by_namespace, refresh_datasets,
};

fn ds(ns: &str, name: &str, endpoint: &str) -> DatasetInfo {
    DatasetInfo {
        id: 1,
        name: name.to_string(),
        namespace: ns.to_string(),
        source_type: SourceType::Parquet,
        coordinator_id: "c1".to_string(),
        executor_endpoint: endpoint.to_string(),
        schema_ipc: vec![],
        metadata: "null".to_string(),
    }
}

fn alice() -> Subject {
    Subject { user_id: "alice".to_string(), groups: vec![] }
}

fn allow(resource: &str) -> Policy {
    Policy {
        id: 1,
        subject_name: "alice".to_string(),
        subject_type: SubjectType::User,
        resource_pattern: resource.to_string(),
        action: "SELECT".to_string(),
        effect: PolicyEffect::Allow,
        row_filter: None,
        column_mask_json: None,
        priority: 0,
    }
}

#[test]
fn bearer_token_names_the_user() {
    let s = extract_subject(Some("Bearer alice"));
    assert_eq!(s.user_id, "alice");
    assert!(s.groups.is_empty());
    assert_eq!(extract_subject(Some("Basic xyz")).user_id, "anonymous");
    assert_eq!(extract_subject(Some("bearer alice")).user_id, "anonymous");
    assert_eq!(extract_subject(None).user_id, "anonymous");
    assert_eq!(extract_subject(Some("Bearer ")).user_id, "");
}

#[test]
fn session_id_is_kept_or_made_fresh() {
    let given = QueryRequest { sql: "SELECT 1".into(), session_id: Some("sess-1".into()) };
    assert_eq!(session_id(&given), "sess-1");
    let fresh = session_id(&QueryRequest { sql: "SELECT 1".into(), session_id: None });
    assert_eq!(fresh.len(), 36);
    assert_eq!(fresh.as_bytes()[14], b'4');
}

#[test]
fn access_denied_errors_are_forbidden() {
    assert!(is_access_denied("External error: AccessDenied on crm.x"));
    assert!(is_access_denied("permission denied for table"));
    assert!(!is_access_denied("Permission Denied"));
    let (status, body) = query_failure("AccessDenied: no");
    assert_eq!(status, 403);
    assert_eq!(body.error, "AccessDenied");
    assert_eq!(body.detail.as_deref(), Some("AccessDenied: no"));
    let (status, body) = query_failure("table not found");
    assert_eq!(status, 500);
    assert_eq!(body.error, "query execution failed");
    assert_eq!(body.detail.as_deref(), Some("table not found"));
}

fn batch(cols: &[&str], rows: Vec<Vec<Option<&str>>>) -> ResultBatch {
    ResultBatch {
        columns: cols.iter().map(|c| c.to_string()).collect(),
        rows: rows.into_iter().map(|r| r.into_iter().map(|c| c.map(|s| s.to_string())).collect()).collect(),
    }
}

#[test]
fn batches_become_one_response() {
    let empty = batches_to_response(9, vec![], 3);
    assert_eq!(empty.query_id, 9);
    assert!(empty.columns.is_empty());
    assert!(empty.rows.is_empty());
    assert_eq!(empty.duration_ms, 3);
    let bs = vec![
        batch(&["id", "name"], vec![vec![Some("1"), Some("a")]]),
        batch(&["id", "name"], vec![vec![Some("2"), None], vec![Some("3"), Some("c")]]),
    ];
    assert_eq!(rows_returned(&bs), 3);
    let r = batches_to_response(10, bs, 42);
    assert_eq!(r.columns, vec!["id".to_string(), "name".to_string()]);
    assert_eq!(r.rows.len(), 3);
    assert_eq!(r.rows[1][1], None);
    assert_eq!(r.rows[2][0].as_deref(), Some("3"));
}

#[test]
fn query_audit_events() {
    let subject = audit_subject(&alice(), "s1".to_string());
    assert_eq!(subject.session_id.as_deref(), Some("s1"));
    let e = submitted_event("node-1", subject.clone(), 5, "SELECT 1".to_string());
    assert_eq!(e.schema_version, 1);
    assert_eq!(e.source_service, "elan-query");
    assert_eq!(e.source_instance, "node-1");
    assert_eq!(e.event_type(), "QuerySubmitted");
    match &e.payload {
        AuditPayload::QuerySubmitted(p) => {
            assert_eq!(p.query_id, 5);
            assert_eq!(p.sql, "SELECT 1");
            assert!(p.resolved_tables.is_empty());
            assert!(p.executors.is_empty());
        }
        _ => panic!("wrong payload"),
    }
    let c = completed_event("node-1", subject.clone(), 5, 12, 3);
    match &c.payload {
        AuditPayload::QueryCompleted(p) => {
            assert_eq!((p.query_id, p.duration_ms, p.rows_returned, p.bytes_scanned), (5, 12, 3, 0));
        }
        _ => panic!("wrong payload"),
    }
    let f = failed_event("node-1", subject, 5, 12, "boom");
    assert_eq!(f.kafka_topic(), "elan.audit.query.failed");
    match &f.payload {
        AuditPayload::QueryFailed(p) => {
            assert_eq!(p.error_kind, "DataFusionError");
            assert_eq!(p.error_msg, "boom");
        }
        _ => panic!("wrong payload"),
    }
}

fn scan(name: &str, filters: Vec<SqlExpr>, limit: Option<usize>, endpoint: &str) -> RemoteTableScanExec {
    RemoteTableScanExec::new(ds("crm", name, endpoint), vec![], filters, limit)
}

fn col(n: &str) -> Box<SqlExpr> {
    Box::new(SqlExpr::Column(n.to_string()))
}

fn lit(t: &str) -> Box<SqlExpr> {
    Box::new(SqlExpr::Literal(t.to_string()))
}

#[test]
fn predicates_render_as_sql() {
    let e = SqlExpr::Binary { op: SqlOp::Gt, left: col("age"), right: lit("30") };
    assert_eq!(expr_to_sql(&e).as_deref(), Some("(\"age\" > 30)"));
    let n = SqlExpr::Not(Box::new(SqlExpr::Binary { op: SqlOp::Eq, left: col("x"), right: lit("'a'") }));
    assert_eq!(expr_to_sql(&n).as_deref(), Some("NOT ((\"x\" = 'a'))"));
    let other = SqlExpr::Binary { op: SqlOp::Other, left: col("x"), right: lit("1") };
    assert_eq!(expr_to_sql(&other), None);
    assert_eq!(expr_to_sql(&SqlExpr::Binary { op: SqlOp::And, left: col("x"), right: Box::new(SqlExpr::Other) }), None);
}

#[test]
fn scan_sql_has_filters_and_limit() {
    assert_eq!(scan("customers", vec![], None, "h:1").build_sql(), "SELECT * FROM \"customers\"");
    let filters = vec![
        SqlExpr::Binary { op: SqlOp::GtEq, left: col("age"), right: lit("18") },
        SqlExpr::Other,
        SqlExpr::Binary { op: SqlOp::NotEq, left: col("country"), right: lit("'US'") },
    ];
    assert_eq!(
        scan("customers", filters, Some(10), "h:1").build_sql(),
        "SELECT * FROM \"customers\" WHERE (\"age\" >= 18) AND (\"country\" != 'US') LIMIT 10"
    );
    assert_eq!(scan("t", vec![SqlExpr::Other], Some(0), "h:1").build_sql(), "SELECT * FROM \"t\" LIMIT 0");
}

#[test]
fn endpoints_split_at_the_last_colon() {
    assert_eq!(parse_endpoint("exec-1:50055").unwrap(), ("exec-1".to_string(), 50055));
    assert_eq!(parse_endpoint("[::1]:7").unwrap(), ("[::1]".to_string(), 7));
    assert_eq!(parse_endpoint("host:+80").unwrap(), ("host".to_string(), 80));
    assert_eq!(parse_endpoint("nohost").unwrap_err(), "invalid executor endpoint: nohost");
    assert_eq!(parse_endpoint("h:").unwrap_err(), "invalid port in endpoint: cannot parse integer from empty string");
    assert_eq!(parse_endpoint("h:80a").unwrap_err(), "invalid port in endpoint: invalid digit found in string");
    assert_eq!(parse_endpoint("h:65536").unwrap_err(), "invalid port in endpoint: number too large to fit in target type");
}

#[test]
fn scans_go_to_the_next_port() {
    assert_eq!(executor_sql_url("exec-1:50055").unwrap(), "http://exec-1:50056/sql");
    assert!(executor_sql_url("bad").is_err());
    let s = scan("orders", vec![], Some(5), "10.0.0.2:9000");
    let (url, sql) = dispatch(&s).unwrap();
    assert_eq!(url, "http://10.0.0.2:9001/sql");
    assert_eq!(sql, "SELECT * FROM \"orders\" LIMIT 5");
    assert_eq!(describe(&s), "RemoteTableScanExec: crm.orders @ 10.0.0.2:9000");
    assert_eq!(s.dataset_namespace(), "crm");
    assert_eq!(s.dataset_name(), "orders");
    assert_eq!(executor_error("502 Bad Gateway", "down"), "executor SQL service error (502 Bad Gateway): down");
}

#[test]
fn placeholder_schemas_are_recognised() {
    assert!(placeholder_schema(&[]));
    assert!(placeholder_schema(&[0, 0, 0, 0]));
    assert!(placeholder_schema(&[1, 2, 3, 4, 5, 6, 7]));
    assert!(!placeholder_schema(&[255, 255, 255, 255, 8, 0, 0, 0]));
}

#[test]
fn schema_provider_hides_and_fetches() {
    let engine = SnapshotIamEngine::new(vec![allow("crm.customers"), allow("crm.leads")]);
    let mut schema = ElanSchemaProvider::new("crm".to_string(), vec![ds("crm", "customers", "h:1"), ds("crm", "orders", "h:1")], alice());
    assert_eq!(schema.namespace(), "crm");
    assert_eq!(schema.table_names(&engine), vec!["customers".to_string()]);
    assert!(matches!(schema.table(&engine, "orders"), TableLookup::Hidden));
    assert!(matches!(schema.table(&engine, "customers"), TableLookup::Cached(d) if d.name == "customers"));
    assert!(matches!(schema.table(&engine, "leads"), TableLookup::Fetch));
    assert!(schema.table_exist("orders"));
    assert!(!schema.table_exist("leads"));
    schema.insert_fetched("leads".to_string(), ds("crm", "leads", "h:1"));
    assert!(matches!(schema.table(&engine, "leads"), TableLookup::Cached(_)));
}

#[test]
fn table_provider_scans_remotely_with_inexact_pushdown() {
    let fields = vec![
        FieldInfo { name: "id".into(), data_type: "Int64".into(), nullable: false },
        FieldInfo { name: "email".into(), data_type: "Utf8".into(), nullable: true },
    ];
    let t = ElanTableProvider::new(ds("crm", "customers", "h:1"), fields);
    let s = t.scan(None, vec![SqlExpr::Other], Some(3)).unwrap();
    assert_eq!(s.dataset.name, "customers");
    assert_eq!(s.schema.len(), 2);
    assert_eq!(s.limit, Some(3));
    let p = t.scan(Some(&vec![1]), vec![], None).unwrap();
    assert_eq!(p.schema.len(), 1);
    assert_eq!(p.schema[0].name, "email");
    let e = t.scan(Some(&vec![0, 2, 5]), vec![], None).unwrap_err();
    assert_eq!((e.index, e.field_count), (2, 2));
    assert_eq!(t.supports_filters_pushdown(2), vec![FilterPushDown::Inexact, FilterPushDown::Inexact]);
    let mut stored = ds("crm", "leads", "h:1");
    stored.schema_ipc = serialize_schema(&vec![FieldInfo { name: "lead".into(), data_type: "Utf8".into(), nullable: true }]).unwrap();
    let from_catalog = ElanTableProvider::for_dataset(stored);
    assert_eq!(from_catalog.schema.len(), 1);
    assert_eq!(from_catalog.schema[0].name, "lead");
    assert!(ElanTableProvider::for_dataset(ds("crm", "x", "h:1")).schema.is_empty());
}

#[test]
fn catalog_groups_by_namespace_and_filters_per_user() {
    let groups = group_by_namespace(vec![ds("crm", "a", "h:1"), ds("fin", "b", "h:1"), ds("crm", "c", "h:1")]);
    assert_eq!(groups.len(), 2);
    let crm: Vec<&str> = groups.get("crm").unwrap().iter().map(|d| d.name.as_str()).collect();
    assert_eq!(crm, vec!["a", "c"]);
    let catalog = build_catalog(groups, &alice());
    let mut names = catalog.schema_names();
    names.sort();
    assert_eq!(names, vec!["crm".to_string(), "fin".to_string()]);
    let engine = SnapshotIamEngine::new(vec![allow("crm.*")]);
    let resp = catalog_response(Some(&catalog), &engine);
    let mut nss: Vec<(String, Vec<String>)> = resp
        .namespaces
        .iter()
        .map(|n| {
            let mut d: Vec<String> = n.datasets.iter().map(|d| d.name.clone()).collect();
            d.sort();
            (n.name.clone(), d)
        })
        .collect();
    nss.sort();
    assert_eq!(nss, vec![("crm".to_string(), vec!["a".to_string(), "c".to_string()]), ("fin".to_string(), vec![])]);
    for n in &resp.namespaces {
        for d in &n.datasets {
            assert_eq!(d.source_type, "unknown");
            assert_eq!(d.coordinator_id, "");
        }
    }
    assert!(catalog_response(None, &AllowAllEngine).namespaces.is_empty());
}

fn dproto(id: &str, ns: &str, name: &str, st: &str) -> DatasetProto {
    DatasetProto {
        dataset_id: id.to_string(),
        name: name.to_string(),
        namespace: ns.to_string(),
        source_type: st.to_string(),
        coordinator_id: "c".to_string(),
        executor_endpoint: "e:1".to_string(),
        arrow_schema_ipc: vec![],
        metadata_json: "{}".to_string(),
    }
}

#[test]
fn catalog_load_stops_at_first_bad_message() {
    let ok = decode_datasets(vec![
        dproto("67e55044-10b1-426f-9247-bb680e5fe0c8", "crm", "a", "csv"),
        dproto("00000000-0000-0000-0000-000000000002", "fin", "b", "delta"),
    ])
    .unwrap();
    assert_eq!(ok.len(), 2);
    assert_eq!(ok[1].id, 2);
    let bad = decode_datasets(vec![
        dproto("00000000-0000-0000-0000-000000000002", "fin", "b", "delta"),
        dproto("00000000-0000-0000-0000-000000000003", "fin", "c", "orc"),
        dproto("bad", "fin", "d", "csv"),
    ]);
    assert!(matches!(bad, Err(ElanError::Config(m)) if m == "unknown source type: orc"));
}

#[test]
fn policy_load_and_deny_all_fallback() {
    let ps = decode_policies(vec![PolicyProto {
        policy_id: "00000000-0000-0000-0000-000000000005".to_string(),
        subject_name: "alice".to_string(),
        subject_type: "user".to_string(),
        resource_pattern: "*".to_string(),
        action: "SELECT".to_string(),
        effect: 0,
        row_filter: String::new(),
        column_mask_json: String::new(),
        priority: 1,
    }]);
    assert_eq!(ps.len(), 1);
    assert_eq!(ps[0].id, 5);
    let engine = engine_from_load(Ok(ps));
    assert!(engine.check(&alice(), &elan::iam::types::ResourceId { namespace: "a".into(), name: "b".into() }, "SELECT").is_allowed());
    let deny_all = engine_from_load(Err("unreachable".to_string()));
    assert!(!deny_all.check(&alice(), &elan::iam::types::ResourceId { namespace: "a".into(), name: "b".into() }, "SELECT").is_allowed());
}

#[test]
fn catalog_refresh_keeps_old_view_on_failure() {
    let current = group_by_namespace(vec![ds("crm", "a", "h:1")]);
    let (kept, changed) = refresh_datasets(current, Err("timeout".to_string()));
    assert!(!changed);
    assert_eq!(kept.len(), 1);
    let fresh = group_by_namespace(vec![ds("crm", "a", "h:1"), ds("fin", "b", "h:1")]);
    let (now, changed) = refresh_datasets(kept, Ok(fresh));
    assert!(changed);
    assert_eq!(now.len(), 2);
    let same = group_by_namespace(vec![ds("ops", "z", "h:1"), ds("hr", "y", "h:1")]);
    let (_, changed) = refresh_datasets(now, Ok(same));
    assert!(!changed);
    let empty: NamedMap<Vec<DatasetInfo>> = NamedMap::new();
    assert_eq!(empty.len(), 0);
}

#[test]
fn query_config_defaults_and_layers() {
    let d = QueryConfig::default();
    assert_eq!(d.http_addr, "0.0.0.0:3000");
    assert_eq!(d.iam_refresh_secs, 60);
    let c = load(None, &vec![]).unwrap();
    assert_eq!(c.http_addr, "0.0.0.0:3000");
    assert_eq!(c.central_endpoint, "http://localhost:50051");
    assert_eq!(c.kafka_brokers, None);
    assert_eq!(c.instance_name, "query-node-1");
    assert_eq!(c.iam_refresh_secs, 60);
    let file = "http_addr = \"127.0.0.1:9000\"\niam_refresh_secs = 5\nkafka_brokers = \"k:9092\"\n";
    let env = vec![
        ("ELAN_QUERY__INSTANCE_NAME".to_string(), "node-7".to_string()),
        ("ELAN_QUERY__IAM_REFRESH_SECS".to_string(), "15".to_string()),
        ("OTHER__HTTP_ADDR".to_string(), "ignored".to_string()),
    ];
    let c = load(Some(file), &env).unwrap();
    assert_eq!(c.http_addr, "127.0.0.1:9000");
    assert_eq!(c.kafka_brokers.as_deref(), Some("k:9092"));
    assert_eq!(c.instance_name, "node-7");
    assert_eq!(c.iam_refresh_secs, 15);
    assert!(load(Some("iam_refresh_secs = \"soon\""), &vec![]).is_err());
    assert!(load(Some("not toml ["), &vec![]).is_err());
}

#[test]
fn query_config_environment_without_file() {
    let env = vec![
        ("ELAN_QUERY__KAFKA_BROKERS".to_string(), "b:1".to_string()),
        ("ELAN_QUERY__IAM_REFRESH_SECS".to_string(), "7".to_string()),
        ("elan_query__iam_refresh_secs".to_string(), "9".to_string()),
        ("ELAN_QUERYX__HTTP_ADDR".to_string(), "ignored".to_string()),
    ];
    let c = load(None, &env).unwrap();
    assert_eq!(c.http_addr, "0.0.0.0:3000");
    assert_eq!(c.central_endpoint, "http://localhost:50051");
    assert_eq!(c.kafka_brokers.as_deref(), Some("b:1"));
    assert_eq!(c.instance_name, "query-node-1");
    assert_eq!(c.iam_refresh_secs, 9);
}

#[test]
fn serving_a_query_step_by_step() {
    let req = QueryRequest { sql: "SELECT * FROM crm.customers".into(), session_id: Some("s-9".into()) };
    let start = begin_query(Some("Bearer carol"), &req);
    assert_eq!(start.subject.user_id, "carol");
    assert_eq!(start.audit_subject.session_id.as_deref(), Some("s-9"));
    assert_eq!((start.query_id >> 76) & 0xf, 4);

    let (status, body) = on_session(&start, "node-1", &req.sql, Err("central unreachable".into())).unwrap_err();
    assert_eq!(status, 500);
    assert_eq!(body.error, "session build failed");
    assert_eq!(body.detail.as_deref(), Some("central unreachable"));

    let submitted = on_session(&start, "node-1", &req.sql, Ok(())).unwrap();
    assert_eq!(submitted.event_type(), "QuerySubmitted");
    assert_eq!(submitted.subject.user_id, "carol");

    let (done, answer) = on_executed(&start, "node-1", Ok(vec![batch(&["a"], vec![vec![Some("1")], vec![None]])]), 8);
    assert_eq!(done.event_type(), "QueryCompleted");
    match &done.payload {
        AuditPayload::QueryCompleted(p) => assert_eq!((p.rows_returned, p.duration_ms, p.bytes_scanned), (2, 8, 0)),
        _ => panic!("wrong payload"),
    }
    let resp = answer.unwrap();
    assert_eq!(resp.query_id, start.query_id);
    assert_eq!(resp.rows.len(), 2);

    let (failed, answer) = on_executed(&start, "node-1", Err("Error during planning: permission denied".into()), 3);
    assert_eq!(failed.event_type(), "QueryFailed");
    let (status, body) = answer.unwrap_err();
    assert_eq!(status, 403);
    assert_eq!(body.error, "AccessDenied");
    match &failed.payload {
        AuditPayload::QueryFailed(p) => assert_eq!(p.error_kind, "DataFusionError"),
        _ => panic!("wrong payload"),
    }
}

#[test]
fn scan_result_schema_prefers_the_first_batch() {
    let stored = vec![FieldInfo { name: "value".into(), data_type: "Utf8".into(), nullable: true }];
    let first = vec![FieldInfo { name: "id".into(), data_type: "Int64".into(), nullable: false }];
    let second = vec![FieldInfo { name: "x".into(), data_type: "Utf8".into(), nullable: true }];
    let r = reported_schema(vec![first, second], stored.clone());
    assert_eq!(r.len(), 1);
    assert_eq!(r[0].name, "id");
    let r = reported_schema(vec![], stored);
    assert_eq!(r[0].name, "value");
}

#[test]
fn fetched_tables_are_remembered_under_the_asked_name() {
    let engine = AllowAllEngine;
    let mut schema = ElanSchemaProvider::new("crm".to_string(), vec![], alice());
    let reply = Ok(dproto("00000000-0000-0000-0000-000000000004", "crm", "leads_v2", "csv"));
    assert!(schema.take_fetched("leads", reply).unwrap());
    assert!(matches!(schema.table(&engine, "leads"), TableLookup::Cached(d) if d.id == 4 && d.name == "leads_v2"));
    let missing = Err(GrpcStatus { code: GrpcCode::NotFound, message: "dataset not found: crm.x".into() });
    assert!(!schema.take_fetched("x", missing).unwrap());
    let down = Err(GrpcStatus { code: GrpcCode::Unavailable, message: "down".into() });
    assert!(matches!(schema.take_fetched("y", down), Err(FetchError::Service(s)) if s.message == "down"));
    let bad = Ok(dproto("nope", "crm", "z", "csv"));
    assert!(matches!(schema.take_fetched("z", bad), Err(FetchError::Decode(ElanError::Uuid(_)))));
    assert!(!schema.table_exist("z"));
}

#[test]
fn schemas_are_written_and_read_as_arrow_streams() {
    let fields = vec![
        FieldInfo { name: "id".into(), data_type: "Int64".into(), nullable: false },
        FieldInfo { name: "email".into(), data_type: "Utf8".into(), nullable: true },
    ];
    let bytes = serialize_schema(&fields).unwrap();
    assert!(bytes.len() >= 8);
    let back = decode_schema(&bytes).unwrap();
    assert_eq!(back.len(), 2);
    assert_eq!((back[0].name.as_str(), back[0].data_type.as_str(), back[0].nullable), ("id", "Int64", false));
    assert_eq!((back[1].name.as_str(), back[1].data_type.as_str(), back[1].nullable), ("email", "Utf8", true));
    assert!(decode_schema(&[]).unwrap().is_empty());
    assert!(decode_schema(&[0, 0, 0, 0]).unwrap().is_empty());
    assert!(decode_schema(&[1, 2, 3, 4, 5, 6, 7, 8, 9]).is_err());
    assert!(schema_or_empty(decode_schema(&[1, 2, 3, 4, 5, 6, 7, 8, 9])).is_empty());
    let bad = vec![FieldInfo { name: "x".into(), data_type: "NoSuchType".into(), nullable: true }];
    assert!(serialize_schema(&bad).is_err());
    let placeholder = registration_schema(Err("no file".into())).unwrap();
    let read = decode_schema(&placeholder).unwrap();
    assert_eq!(read.len(), 1);
    assert_eq!(read[0].name, placeholder_fields()[0].name);
    assert_eq!(read[0].data_type, "Utf8");
}
