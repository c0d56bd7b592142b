use elan::coordinator::config::{
    default_delimiter, default_http_addr, default_pg_port, default_true, CentralConfig, CoordinatorConfig,
    CoordinatorMeta, DatasetConfig, ExecutorConfig, HttpConfig, MetadataValue,
};
use elan::coordinator::registration::{register_request, to_registration};
use elan::coordinator::runtime::{auth_check, heartbeat_request, on_heartbeat_reply, schema_probe, HeartbeatStep, SchemaProbe};
use elan::coordinator::upload::{upload_plan, UploadStep};

fn csv(name: &str, ns: &str, path: &str) -> DatasetConfig {
    DatasetConfig::Csv {
        name: name.to_string(),
        namespace: ns.to_string(),
        path: path.to_string(),
        delimiter: ',',
        has_header: true,
    }
}

fn postgres() -> DatasetConfig {
    DatasetConfig::Postgres {
        name: "accounts".into(),
        namespace: "billing".into(),
        host: "db".into(),
        port: 5432,
        database: "main".into(),
        schema: "public".into(),
        table: "accounts".into(),
        username: "reader".into(),
        password: "SECRET-REDACTED".into(),
    }
}

fn config() -> CoordinatorConfig {
    CoordinatorConfig {
        coordinator: CoordinatorMeta { id: "coord-eu".into(), environment: "prod".into(), hostname: "eu-1".into() },
        central: CentralConfig { endpoint: "http://central:50051".into() },
        executor: ExecutorConfig { endpoint: "exec-eu:50055".into() },
        http: HttpConfig { addr: "0.0.0.0:8081".into() },
        datasets: vec![csv("customers", "crm", "/data/customers.csv")],
        object_store: None,
    }
}

#[test]
fn defaults() {
    assert_eq!(default_http_addr(), "0.0.0.0:8081");
    assert_eq!(default_delimiter(), ',');
    assert!(default_true());
    assert_eq!(default_pg_port(), 5432);
}

#[test]
fn dataset_accessors() {
    let c = csv("customers", "crm", "/data/customers.csv");
    assert_eq!(c.name(), "customers");
    assert_eq!(c.namespace(), "crm");
    assert_eq!(c.source_type(), "csv");
    let p = postgres();
    assert_eq!(p.source_type(), "postgres");
    let d = DatasetConfig::Delta { name: "events".into(), namespace: "ops".into(), path: "/d".into() };
    assert_eq!(d.source_type(), "delta");
    let q = DatasetConfig::Parquet { name: "t".into(), namespace: "fin".into(), path: "/t.parquet".into(), description: None };
    assert_eq!(q.source_type(), "parquet");
}

#[test]
fn metadata_leaves_out_the_password() {
    let entries = postgres().metadata_json();
    let keys: Vec<&str> = entries.iter().map(|(k, _)| k.as_str()).collect();
    assert_eq!(keys, vec!["host", "port", "database", "schema", "table", "username"]);
    assert!(matches!(entries[1].1, MetadataValue::Number(5432)));
    let csv_meta = csv("c", "crm", "/c.csv").metadata_json();
    assert!(matches!(&csv_meta[1].1, MetadataValue::Text(t) if t == ","));
    assert!(matches!(csv_meta[2].1, MetadataValue::Flag(true)));
}

#[test]
fn registration_messages() {
    let cfg = config();
    let r = register_request(&cfg);
    assert_eq!(r.coordinator_id, "coord-eu");
    assert_eq!(r.environment, "prod");
    assert_eq!(r.hostname, "eu-1");
    assert_eq!(r.executor_endpoint, "exec-eu:50055");
    let d = to_registration(&cfg.datasets[0], "coord-eu", vec![1, 2]);
    assert_eq!(d.coordinator_id, "coord-eu");
    assert_eq!(d.dataset_id.len(), 36);
    assert_eq!(d.name, "customers");
    assert_eq!(d.namespace, "crm");
    assert_eq!(d.source_type, "csv");
    assert_eq!(d.arrow_schema_ipc, vec![1, 2]);
    assert_eq!(d.metadata_json, r#"{"delimiter":",","has_header":true,"path":"/data/customers.csv"}"#);
    let pg = to_registration(&postgres(), "c", vec![]);
    assert_eq!(
        pg.metadata_json,
        r#"{"database":"main","host":"db","port":5432,"schema":"public","table":"accounts","username":"reader"}"#
    );
}

#[test]
fn uploads_go_under_the_namespace() {
    let plan = upload_plan(&vec![
        csv("customers", "crm", "/data/customers.csv"),
        postgres(),
        DatasetConfig::Parquet { name: "tx".into(), namespace: "finance".into(), path: "/data/".into(), description: None },
        DatasetConfig::Parquet { name: "tx".into(), namespace: "finance".into(), path: "rel/tx.parquet".into(), description: None },
    ]);
    assert_eq!(plan.len(), 4);
    assert!(matches!(&plan[0], UploadStep::Upload { key, local_path, .. } if key == "crm/customers.csv" && local_path == "/data/customers.csv"));
    assert!(matches!(&plan[1], UploadStep::Skip { dataset } if dataset == "accounts"));
    assert!(matches!(&plan[2], UploadStep::Upload { key, .. } if key == "finance/data"));
    assert!(matches!(&plan[3], UploadStep::Upload { key, .. } if key == "finance/tx.parquet"));
}

#[test]
fn schema_probes_by_source() {
    let tab = DatasetConfig::Csv { name: "t".into(), namespace: "n".into(), path: "/t.tsv".into(), delimiter: '\t', has_header: false };
    assert!(matches!(schema_probe(&tab), SchemaProbe::Csv { delimiter: 9, has_header: false, .. }));
    let q = DatasetConfig::Parquet { name: "t".into(), namespace: "n".into(), path: "/t.parquet".into(), description: None };
    assert!(matches!(schema_probe(&q), SchemaProbe::Parquet { path } if path == "/t.parquet"));
    assert!(matches!(schema_probe(&postgres()), SchemaProbe::Placeholder));
    let wide = DatasetConfig::Csv { name: "t".into(), namespace: "n".into(), path: "/t".into(), delimiter: '\u{13b}', has_header: true };
    assert!(matches!(schema_probe(&wide), SchemaProbe::Csv { delimiter: 0x3b, .. }));
}

#[test]
fn heartbeat_steps() {
    let r = heartbeat_request("coord-eu");
    assert_eq!(r.coordinator_id, "coord-eu");
    assert!(r.sent_at_seconds > 1_600_000_000);
    assert_eq!(on_heartbeat_reply(Ok(true)), HeartbeatStep::Continue);
    assert_eq!(on_heartbeat_reply(Ok(false)), HeartbeatStep::WarnNotAlive);
    assert_eq!(on_heartbeat_reply(Err("reset".into())), HeartbeatStep::Stop("reset".into()));
}

#[test]
fn coordinator_allows_every_access_check() {
    let r = auth_check("crm.customers", "exec-1");
    assert!(r.allowed);
    assert_eq!(r.reason, "PoC: all access allowed by coordinator");
}
