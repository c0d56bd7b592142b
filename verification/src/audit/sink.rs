//! Where audit events go: nowhere, a Kafka topic, or the central service.
//!
//! Sending is I/O and is left to the caller; this module decides what is
//! sent: the Kafka record's topic and key, and the message the central
//! service receives. The event's payload reaches both in its JSON form.

use vstd::prelude::*;
use crate::audit::event::{event_type_name, topic_of, AuditEvent};
use crate::common::error::ElanError;
use crate::common::proto::AuditEventProto;
use crate::ids::{uuid_text, uuid_to_text};
use crate::text::{or_empty, text_or_empty};

verus! {

/// A sink that drops every event, for tests and where no broker is configured.
#[derive(Debug, Clone, Copy)]
pub struct NoOpAuditSink;

impl NoOpAuditSink {
    /// Accepts the event and does nothing with it.
    pub fn publish(&self, event: AuditEvent) -> (r: Result<(), ElanError>)
        ensures
            r is Ok,
    {
        Ok(())
    }
}

/// The Kafka record of an event: its topic, by the event's kind, and its
/// key, the hyphenated form of the event's id.
pub fn kafka_destination(event: &AuditEvent) -> (r: (String, String))
    ensures
        r.0@ == topic_of(event.payload),
        r.1@ == uuid_text(event.event_id),
{
    (event.kafka_topic(), uuid_to_text(event.event_id))
}

/// The message the central service receives for an event whose payload is
/// `payload_json`: the event's id in hyphenated form, its kind, no time,
/// its source service, its user and its session (empty where it has none).
pub fn central_event_proto(event: &AuditEvent, payload_json: String) -> (r: AuditEventProto)
    ensures
        r.event_id@ == uuid_text(event.event_id),
        r.event_type@ == event_type_name(event.payload),
        r.occurred_at is None,
        r.source_service@ == event.source_service@,
        r.user_id@ == event.subject.user_id@,
        r.session_id@ == text_or_empty(event.subject.session_id),
        r.payload_json == payload_json,
{
    proof {
        broadcast use vstd::string::group_string_axioms;
    }
    AuditEventProto {
        event_id: uuid_to_text(event.event_id),
        event_type: event.event_type().to_string(),
        occurred_at: None,
        source_service: event.source_service.clone(),
        user_id: event.subject.user_id.clone(),
        session_id: or_empty(&event.subject.session_id),
        payload_json,
    }
}

} // verus!
