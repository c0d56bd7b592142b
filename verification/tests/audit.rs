use elan::audit::event::{
    AccessDeniedPayload, AuditEvent, AuditPayload, AuditSubject, CoordinatorRegisteredPayload, DatasetRegisteredPayload,
    QueryCompletedPayload, QueryFailedPayload, QuerySubmittedPayload,
};
use elan::audit::sink::{central_event_proto, kafka_destination, NoOpAuditSink};

fn subject(session: Option<&str>) -> AuditSubject {
    AuditSubject { user_id: "alice".into(), groups: vec!["staff".into()], session_id: session.map(|s| s.to_string()) }
}

fn payloads() -> Vec<AuditPayload> {
    vec![
        AuditPayload::QuerySubmitted(QuerySubmittedPayload { query_id: 1, sql: "s".into(), resolved_tables: vec![], executors: vec![] }),
        AuditPayload::QueryCompleted(QueryCompletedPayload { query_id: 1, duration_ms: 2, rows_returned: 3, bytes_scanned: 0 }),
        AuditPayload::QueryFailed(QueryFailedPayload { query_id: 1, duration_ms: 2, error_kind: "k".into(), error_msg: "m".into() }),
        AuditPayload::AccessDenied(AccessDeniedPayload {
            query_id: 1,
            namespace: "crm".into(),
            dataset: "c".into(),
            action: "SELECT".into(),
            reason: "r".into(),
        }),
        AuditPayload::CoordinatorRegistered(CoordinatorRegisteredPayload {
            coordinator_id: "c".into(),
            environment: "e".into(),
            hostname: "h".into(),
        }),
        AuditPayload::DatasetRegistered(DatasetRegisteredPayload {
            dataset_id: "d".into(),
            name: "n".into(),
            namespace: "ns".into(),
            source_type: "csv".into(),
            coordinator_id: "c".into(),
        }),
    ]
}

#[test]
fn events_name_their_kind_and_topic() {
    let expected = [
        ("QuerySubmitted", "elan.audit.query.submitted"),
        ("QueryCompleted", "elan.audit.query.completed"),
        ("QueryFailed", "elan.audit.query.failed"),
        ("AccessDenied", "elan.audit.access.denied"),
        ("CoordinatorRegistered", "elan.audit.coordinator.registered"),
        ("DatasetRegistered", "elan.audit.dataset.registered"),
    ];
    for (payload, (kind, topic)) in payloads().into_iter().zip(expected) {
        let e = AuditEvent::new("elan-query", "node-1", subject(None), payload);
        assert_eq!(e.event_type(), kind);
        assert_eq!(e.kafka_topic(), topic);
    }
}

#[test]
fn new_events_are_versioned_and_fresh() {
    let a = AuditEvent::new("svc", "inst", subject(Some("s")), payloads().remove(0));
    let b = AuditEvent::new("svc", "inst", subject(Some("s")), payloads().remove(0));
    assert_eq!(a.schema_version, 1);
    assert_eq!(a.source_service, "svc");
    assert_eq!(a.source_instance, "inst");
    assert_ne!(a.event_id, b.event_id);
    assert_eq!((a.event_id >> 76) & 0xf, 4);
    assert!(a.occurred_at.seconds > 1_600_000_000);
    assert!(a.occurred_at.nanos < 2_000_000_000);
}

#[test]
fn sinks() {
    let e = AuditEvent::new("elan-query", "node-1", subject(None), payloads().remove(2));
    assert!(NoOpAuditSink.publish(e.clone()).is_ok());
    let (topic, key) = kafka_destination(&e);
    assert_eq!(topic, "elan.audit.query.failed");
    assert_eq!(key.len(), 36);
    assert_eq!(key.as_bytes()[14], b'4');
    let p = central_event_proto(&e, "{\"x\":1}".to_string());
    assert_eq!(p.event_id, key);
    assert_eq!(p.event_type, "QueryFailed");
    assert!(p.occurred_at.is_none());
    assert_eq!(p.source_service, "elan-query");
    assert_eq!(p.user_id, "alice");
    assert_eq!(p.session_id, "");
    assert_eq!(p.payload_json, "{\"x\":1}");
    let with_session = AuditEvent::new("s", "i", subject(Some("sess")), payloads().remove(0));
    assert_eq!(central_event_proto(&with_session, String::new()).session_id, "sess");
}
