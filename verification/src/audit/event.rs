//! Audit events and their payloads.
//!
//! Identifiers are UUIDs taken as their 128-bit values.

use vstd::prelude::*;
use crate::ids::{is_v4_uuid, new_uuid_v4, utc_now};

verus! {

/// Who caused an event, and in which session.
#[derive(Debug, Clone)]
pub struct AuditSubject {
    pub user_id: String,
    pub groups: Vec<String>,
    pub session_id: Option<String>,
}

/// A query was accepted for execution.
#[derive(Debug, Clone)]
pub struct QuerySubmittedPayload {
    pub query_id: u128,
    pub sql: String,
    pub resolved_tables: Vec<String>,
    /// The executor endpoint of each table, one pair per table.
    pub executors: Vec<(String, String)>,
}

/// A query finished and returned rows.
#[derive(Debug, Clone)]
pub struct QueryCompletedPayload {
    pub query_id: u128,
    pub duration_ms: u64,
    pub rows_returned: usize,
    pub bytes_scanned: u64,
}

/// A query failed.
#[derive(Debug, Clone)]
pub struct QueryFailedPayload {
    pub query_id: u128,
    pub duration_ms: u64,
    pub error_kind: String,
    pub error_msg: String,
}

/// A request on a dataset was refused.
#[derive(Debug, Clone)]
pub struct AccessDeniedPayload {
    pub query_id: u128,
    pub namespace: String,
    pub dataset: String,
    pub action: String,
    pub reason: String,
}

/// A coordinator joined the system.
#[derive(Debug, Clone)]
pub struct CoordinatorRegisteredPayload {
    pub coordinator_id: String,
    pub environment: String,
    pub hostname: String,
}

/// A dataset was added to the catalog.
#[derive(Debug, Clone)]
pub struct DatasetRegisteredPayload {
    pub dataset_id: String,
    pub name: String,
    pub namespace: String,
    pub source_type: String,
    pub coordinator_id: String,
}

/// What an event reports.
#[derive(Debug, Clone)]
pub enum AuditPayload {
    QuerySubmitted(QuerySubmittedPayload),
    QueryCompleted(QueryCompletedPayload),
    QueryFailed(QueryFailedPayload),
    AccessDenied(AccessDeniedPayload),
    CoordinatorRegistered(CoordinatorRegisteredPayload),
    DatasetRegistered(DatasetRegisteredPayload),
}

/// The name of a payload's kind.
pub open spec fn event_type_name(p: AuditPayload) -> Seq<char> {
    match p {
        AuditPayload::QuerySubmitted(_) => "QuerySubmitted"@,
        AuditPayload::QueryCompleted(_) => "QueryCompleted"@,
        AuditPayload::QueryFailed(_) => "QueryFailed"@,
        AuditPayload::AccessDenied(_) => "AccessDenied"@,
        AuditPayload::CoordinatorRegistered(_) => "CoordinatorRegistered"@,
        AuditPayload::DatasetRegistered(_) => "DatasetRegistered"@,
    }
}

/// The last part of the Kafka topic of a payload's kind.
pub open spec fn topic_suffix(p: AuditPayload) -> Seq<char> {
    match p {
        AuditPayload::QuerySubmitted(_) => "query.submitted"@,
        AuditPayload::QueryCompleted(_) => "query.completed"@,
        AuditPayload::QueryFailed(_) => "query.failed"@,
        AuditPayload::AccessDenied(_) => "access.denied"@,
        AuditPayload::CoordinatorRegistered(_) => "coordinator.registered"@,
        AuditPayload::DatasetRegistered(_) => "dataset.registered"@,
    }
}

/// The Kafka topic of a payload's kind: `elan.audit.` and its suffix.
pub open spec fn topic_of(p: AuditPayload) -> Seq<char> {
    "elan.audit."@ + topic_suffix(p)
}

/// A point in time: seconds since the Unix epoch (UTC), and nanoseconds
/// within that second.
#[derive(Debug, Clone, Copy, PartialEq, Eq, Structural)]
pub struct UtcInstant {
    pub seconds: i64,
    pub nanos: u32,
}

/// The version of the event layout that this library writes.
pub const AUDIT_SCHEMA_VERSION: u8 = 1;

/// An audit event.
#[derive(Debug, Clone)]
pub struct AuditEvent {
    pub schema_version: u8,
    pub event_id: u128,
    pub occurred_at: UtcInstant,
    pub source_service: String,
    pub source_instance: String,
    pub subject: AuditSubject,
    pub payload: AuditPayload,
}

impl AuditEvent {
    /// A new event of the current layout version with a fresh random id,
    /// stamped with the current time.
    pub fn new(source_service: &str, source_instance: &str, subject: AuditSubject, payload: AuditPayload) -> (r: Self)
        ensures
            r.schema_version == 1,
            is_v4_uuid(r.event_id),
            r.occurred_at.nanos < 2_000_000_000,
            r.source_service@ == source_service@,
            r.source_instance@ == source_instance@,
            r.subject == subject,
            r.payload == payload,
    {
        proof {
            broadcast use vstd::string::group_string_axioms;
        }
        let event_id = new_uuid_v4();
        let (seconds, nanos) = utc_now();
        let occurred_at = UtcInstant { seconds, nanos };
        AuditEvent {
            schema_version: AUDIT_SCHEMA_VERSION,
            event_id,
            occurred_at,
            source_service: source_service.to_string(),
            source_instance: source_instance.to_string(),
            subject,
            payload,
        }
    }

    /// The name of the event's kind.
    pub fn event_type(&self) -> (r: &'static str)
        ensures
            r@ == event_type_name(self.payload),
    {
        match &self.payload {
            AuditPayload::QuerySubmitted(_) => "QuerySubmitted",
            AuditPayload::QueryCompleted(_) => "QueryCompleted",
            AuditPayload::QueryFailed(_) => "QueryFailed",
            AuditPayload::AccessDenied(_) => "AccessDenied",
            AuditPayload::CoordinatorRegistered(_) => "CoordinatorRegistered",
            AuditPayload::DatasetRegistered(_) => "DatasetRegistered",
        }
    }

    /// The Kafka topic the event goes to, by its kind.
    pub fn kafka_topic(&self) -> (r: String)
        ensures
            r@ == topic_of(self.payload),
    {
        proof {
            broadcast use vstd::string::group_string_axioms;
        }
        let suffix = match &self.payload {
            AuditPayload::QuerySubmitted(_) => "query.submitted",
            AuditPayload::QueryCompleted(_) => "query.completed",
            AuditPayload::QueryFailed(_) => "query.failed",
            AuditPayload::AccessDenied(_) => "access.denied",
            AuditPayload::CoordinatorRegistered(_) => "coordinator.registered",
            AuditPayload::DatasetRegistered(_) => "dataset.registered",
        };
        let mut topic = "elan.audit.".to_string();
        topic.append(suffix);
        topic
    }
}

} // verus!
