use elan::schema::decode_schema;
use elan::executor::config::{default_true, DatasetMount, ExecutorConfig, ObjectStoreConfig};
use elan::executor::sql_service::{
    auth_check_url, empty_result, encoding_failed, execution_failed, object_store_url, request_sql, result_stream, session_failed,
    ReplyBody, ARROW_STREAM_CONTENT_TYPE, OBJECT_STORE_REGION,
};

fn text(body: &ReplyBody) -> &str {
    match body {
        ReplyBody::Text(t) => t.as_str(),
        ReplyBody::ArrowStream(_) => panic!("not text"),
    }
}

#[test]
fn executor_defaults() {
    let c = ExecutorConfig::default();
    assert_eq!(c.bind_host, "0.0.0.0");
    assert_eq!(c.bind_port, 50055);
    assert_eq!(c.coordinator_url, "http://localhost:8081");
    assert!(c.datasets.is_empty());
    assert!(c.object_store.is_none());
    assert_eq!(c.sql_service_port(), 50056);
    assert!(default_true());
}

#[test]
fn mounts_name_their_tables() {
    let p = DatasetMount::Parquet { table_name: "tx".into(), path: "s3://b/tx.parquet".into() };
    let c = DatasetMount::Csv { table_name: "customers".into(), path: "/d.csv".into(), has_header: true };
    assert_eq!(p.table_name(), "tx");
    assert_eq!(c.table_name(), "customers");
}

#[test]
fn request_bodies_must_be_utf8() {
    assert_eq!(request_sql(b"SELECT 1").unwrap(), "SELECT 1");
    assert_eq!(request_sql("SELECT 'é'".as_bytes()).unwrap(), "SELECT 'é'");
    let bad = request_sql(&[0x53, 0xff, 0x41]).unwrap_err();
    assert_eq!(bad.status, 400);
    assert!(text(&bad.body).starts_with("invalid UTF-8: "));
}

#[test]
fn outcome_replies() {
    let s = session_failed("no store".into());
    assert_eq!((s.status, text(&s.body)), (500, "no store"));
    let e = execution_failed("table t not found".into());
    assert_eq!((e.status, text(&e.body)), (400, "table t not found"));
    let w = encoding_failed("write".into());
    assert_eq!(w.status, 500);
    let ok = result_stream(vec![1, 2, 3]);
    assert_eq!(ok.status, 200);
    assert!(matches!(ok.body, ReplyBody::ArrowStream(ref b) if b == &vec![1, 2, 3]));
    assert_eq!(ARROW_STREAM_CONTENT_TYPE, "application/vnd.apache.arrow.stream");
}

#[test]
fn object_store_and_auth_urls() {
    let cfg = ObjectStoreConfig {
        endpoint: "http://minio:9000".into(),
        access_key: "SECRET-REDACTED".into(),
        secret_key: "SECRET-REDACTED".into(),
        bucket: "elan-data".into(),
        allow_http: true,
    };
    assert_eq!(object_store_url(&cfg), "s3://elan-data/");
    assert_eq!(OBJECT_STORE_REGION, "us-east-1");
    assert_eq!(
        auth_check_url("http://coord:8081", "crm.customers", "exec-1"),
        "http://coord:8081/auth/check?dataset=crm.customers&caller=exec-1"
    );
}

#[test]
fn empty_result_is_a_stream_of_the_empty_schema() {
    let r = empty_result();
    assert_eq!(r.status, 200);
    match r.body {
        ReplyBody::ArrowStream(b) => {
            assert!(b.len() > 8);
            assert!(decode_schema(&b).unwrap().is_empty());
        },
        ReplyBody::Text(_) => panic!("expected a stream"),
    }
}
