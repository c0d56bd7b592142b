//! The decisions of elan-central's gRPC services between the wire and the
//! stores: which arguments a request turns into, and how a store's answer
//! is replied.

use vstd::prelude::*;
use crate::common::catalog::DatasetInfo;
use crate::common::error::{GrpcCode, GrpcStatus};
use crate::common::proto::{
    dataset_to_proto, effect_text, filters_not_empty, policy_read_back, policy_to_proto, proto_of_dataset, proto_of_policy, same_policy,
    AuditEventProto, AuditRow, DatasetProto, PolicyProto,
};
use crate::iam::engine::{decide, IamEngine, SnapshotIamEngine};
use crate::iam::types::{Policy, Subject};
use crate::coordinator::registration::DatasetRegistration;
use crate::text::{non_empty, non_empty_copy, none_if_empty};

verus! {

/// The status of a store failure: `Internal`, with the failure's text.
pub fn internal(message: String) -> (r: GrpcStatus)
    ensures
        r.code == GrpcCode::Internal,
        r.message == message,
{
    GrpcStatus { code: GrpcCode::Internal, message }
}

/// The reply to a dataset lookup by namespace and name: the dataset's
/// message, `NotFound` where the store has no such live dataset, or
/// `Internal` where the store failed.
pub fn get_dataset_reply(namespace: &str, name: &str, found: Result<Option<DatasetInfo>, String>) -> (r: Result<DatasetProto, GrpcStatus>)
    ensures
        match found {
            Ok(Some(d)) => r matches Ok(p) && proto_of_dataset(d, p),
            Ok(None) => r matches Err(s) && s.code == GrpcCode::NotFound
                && s.message@ == "dataset not found: "@ + namespace@ + "."@ + name@,
            Err(e) => r matches Err(s) && s.code == GrpcCode::Internal && s.message == e,
        },
{
    match found {
        Ok(Some(d)) => Ok(dataset_to_proto(d)),
        Ok(None) => {
            let mut m = String::new();
            m.append("dataset not found: ");
            m.append(namespace);
            m.append(".");
            m.append(name);
            Err(GrpcStatus { code: GrpcCode::NotFound, message: m })
        },
        Err(e) => Err(internal(e)),
    }
}

/// The namespace a listing is restricted to: none for an empty filter.
pub fn namespace_filter(filter: &String) -> (r: Option<String>)
    ensures
        match r {
            Some(t) => t@ == filter@ && filter@.len() > 0,
            None => filter@.len() == 0,
        },
{
    non_empty_copy(filter)
}

/// The messages for a list of datasets, in order.
pub fn datasets_to_protos(datasets: Vec<DatasetInfo>) -> (r: Vec<DatasetProto>)
    ensures
        r@.len() == datasets@.len(),
        forall|i: int| 0 <= i < r@.len() ==> proto_of_dataset(datasets@[i], #[trigger] r@[i]),
{
    let ghost all = datasets@;
    let mut out: Vec<DatasetProto> = Vec::new();
    for d in it: datasets
        invariant
            it.seq() == all,
            out@.len() == it.index(),
            forall|i: int| 0 <= i < out@.len() ==> proto_of_dataset(all[i], #[trigger] out@[i]),
    {
        out.push(dataset_to_proto(d));
    }
    out
}

/// What the catalog store is asked to record for a dataset registration.
/// The executor endpoint is not part of it: the store takes the one of the
/// registering coordinator.
#[derive(Debug, Clone)]
pub struct DatasetUpsert {
    pub coordinator_id: String,
    pub dataset_id: String,
    pub name: String,
    pub namespace: String,
    pub source_type: String,
    pub arrow_schema_ipc: Vec<u8>,
    pub metadata_json: Option<String>,
}

/// The record a dataset registration asks for; empty metadata is none.
pub fn dataset_upsert(req: DatasetRegistration) -> (r: DatasetUpsert)
    ensures
        r.coordinator_id == req.coordinator_id,
        r.dataset_id == req.dataset_id,
        r.name == req.name,
        r.namespace == req.namespace,
        r.source_type == req.source_type,
        r.arrow_schema_ipc == req.arrow_schema_ipc,
        match r.metadata_json {
            Some(m) => m@ == req.metadata_json@ && m@.len() > 0,
            None => req.metadata_json@.len() == 0,
        },
{
    DatasetUpsert {
        coordinator_id: req.coordinator_id,
        dataset_id: req.dataset_id,
        name: req.name,
        namespace: req.namespace,
        source_type: req.source_type,
        arrow_schema_ipc: req.arrow_schema_ipc,
        metadata_json: non_empty(req.metadata_json),
    }
}

/// What the IAM store is asked to record for a new policy.
#[derive(Debug, Clone)]
pub struct NewPolicy {
    pub subject_name: String,
    pub subject_type: String,
    pub resource_pattern: String,
    pub action: String,
    /// `Deny` or `Allow`.
    pub effect: String,
    pub row_filter: Option<String>,
    pub column_mask_json: Option<String>,
    pub priority: i32,
}

/// The view of an optional string.
pub open spec fn opt_string_view(s: Option<String>) -> Option<Seq<char>> {
    match s {
        Some(t) => Some(t@),
        None => None,
    }
}

/// The record a policy creation asks for: effect 1 is `Deny` and any other
/// `Allow`; empty filters are none.
pub fn new_policy(p: PolicyProto) -> (r: NewPolicy)
    ensures
        r.subject_name == p.subject_name,
        r.subject_type == p.subject_type,
        r.resource_pattern == p.resource_pattern,
        r.action == p.action,
        r.effect@ == (if p.effect == 1 { "Deny"@ } else { "Allow"@ }),
        opt_string_view(r.row_filter) == none_if_empty(p.row_filter@),
        opt_string_view(r.column_mask_json) == none_if_empty(p.column_mask_json@),
        r.priority == p.priority,
{
    proof {
        broadcast use vstd::string::group_string_axioms;
    }
    let effect = effect_text(p.effect).to_string();
    NewPolicy {
        subject_name: p.subject_name,
        subject_type: p.subject_type,
        resource_pattern: p.resource_pattern,
        action: p.action,
        effect,
        row_filter: non_empty(p.row_filter),
        column_mask_json: non_empty(p.column_mask_json),
        priority: p.priority,
    }
}

/// The subject a policy listing is restricted to: none for an empty name.
pub fn listing_subject(subject_name: &String) -> (r: Option<String>)
    ensures
        match r {
            Some(t) => t@ == subject_name@ && subject_name@.len() > 0,
            None => subject_name@.len() == 0,
        },
{
    non_empty_copy(subject_name)
}

/// The messages for a list of policies, one per policy, in order.
pub fn policies_to_protos(policies: Vec<Policy>) -> (r: Vec<PolicyProto>)
    ensures
        r@.len() == policies@.len(),
        forall|i: int| 0 <= i < r@.len() ==> proto_of_policy(policies@[i], #[trigger] r@[i]),
{
    let ghost all = policies@;
    let mut out: Vec<PolicyProto> = Vec::new();
    for p in it: policies
        invariant
            it.seq() == all,
            out@.len() == it.index(),
            forall|i: int| 0 <= i < out@.len() ==> proto_of_policy(all[i], #[trigger] out@[i]),
    {
        out.push(policy_to_proto(p));
    }
    out
}

/// Listing policies and loading the listing back gives the same policies:
/// where every listed policy has its filters absent or not empty, the
/// policies that decoding the listed messages yields are the listed ones,
/// in order.
pub proof fn law_listed_policies_read_back(listed: Seq<Policy>, protos: Seq<PolicyProto>, loaded: Seq<Policy>)
    requires
        forall|i: int| 0 <= i < listed.len() ==> filters_not_empty(#[trigger] listed[i]),
        protos.len() == listed.len(),
        forall|i: int| 0 <= i < protos.len() ==> proto_of_policy(listed[i], #[trigger] protos[i]),
        loaded.len() == protos.len(),
        forall|i: int| 0 <= i < loaded.len() ==> policy_read_back(protos[i], #[trigger] loaded[i]),
    ensures
        loaded.len() == listed.len(),
        forall|i: int| 0 <= i < loaded.len() ==> same_policy(listed[i], #[trigger] loaded[i]),
{
    assert forall|i: int| 0 <= i < loaded.len() implies same_policy(listed[i], #[trigger] loaded[i]) by {
        assert(policy_read_back(protos[i], loaded[i]));
        assert(proto_of_policy(listed[i], protos[i]));
        assert(filters_not_empty(listed[i]));
    }
}

/// Puts the listed policies into the engine after a policy was written: the
/// engine then decides by exactly the listed policies; a listing that failed
/// leaves the engine as it was and is an `Internal` status.
pub fn reload_engine(engine: &mut SnapshotIamEngine, listed: Result<Vec<Policy>, String>) -> (r: Result<(), GrpcStatus>)
    ensures
        match listed {
            Ok(ps) => r is Ok && final(engine).policies() == ps@,
            Err(e) => r matches Err(s) && s.code == GrpcCode::Internal && s.message == e
                && final(engine).policies() == old(engine).policies(),
        },
{
    match listed {
        Ok(ps) => {
            engine.reload(ps);
            Ok(())
        },
        Err(e) => Err(internal(e)),
    }
}

/// The reply to a policy creation: a store failure is an `Internal` status
/// and leaves the engine as it was; else the engine is reloaded from the
/// policies listed after the write (see [`reload_engine`]) and the reply is
/// the new policy's id.
pub fn create_policy_reply(engine: &mut SnapshotIamEngine, created: Result<String, String>, listed: Result<Vec<Policy>, String>)
    -> (r: Result<String, GrpcStatus>)
    ensures
        match created {
            Err(e) => r matches Err(s) && s.code == GrpcCode::Internal && s.message == e
                && final(engine).policies() == old(engine).policies(),
            Ok(id) => match listed {
                Ok(ps) => r == Ok::<String, GrpcStatus>(id) && final(engine).policies() == ps@,
                Err(e) => r matches Err(s) && s.code == GrpcCode::Internal && s.message == e
                    && final(engine).policies() == old(engine).policies(),
            },
        },
{
    match created {
        Err(e) => Err(internal(e)),
        Ok(id) => match reload_engine(engine, listed) {
            Ok(()) => Ok(id),
            Err(s) => Err(s),
        },
    }
}

/// After a write and a reload, the engine decides every request as a fresh
/// engine over the listed policies would: both decide by the policy list.
pub proof fn law_reloaded_engine_is_fresh(reloaded: SnapshotIamEngine, fresh: SnapshotIamEngine, listed: Seq<Policy>)
    requires
        reloaded.policies() == listed,
        fresh.policies() == listed,
    ensures
        forall|s: Subject, namespace: Seq<char>, name: Seq<char>, action: Seq<char>|
            #[trigger] reloaded.decision(s, namespace, name, action) == fresh.decision(s, namespace, name, action)
            && reloaded.decision(s, namespace, name, action) == decide(listed, s, namespace, name, action),
{
}

/// The stored form of a published audit event, received at `received_at`;
/// an empty session is none.
pub fn audit_row_of(event: &AuditEventProto, received_at: String) -> (r: AuditRow)
    ensures
        r.id == event.event_id,
        r.event_type == event.event_type,
        r.occurred_at == received_at,
        r.source_service == event.source_service,
        r.user_id == event.user_id,
        opt_string_view(r.session_id) == none_if_empty(event.session_id@),
        r.payload_json == event.payload_json,
{
    AuditRow {
        id: event.event_id.clone(),
        event_type: event.event_type.clone(),
        occurred_at: received_at,
        source_service: event.source_service.clone(),
        user_id: event.user_id.clone(),
        session_id: non_empty_copy(&event.session_id),
        payload_json: event.payload_json.clone(),
    }
}

/// What `chrono::DateTime::<Utc>::from_timestamp` followed by `to_rfc3339`
/// yields for a time: its RFC 3339 text, or nothing where the seconds and
/// nanoseconds name no representable time.
pub uninterp spec fn rfc3339_at(seconds: i64, nanos: u32) -> Option<Seq<char>>;

/// `chrono::DateTime::<Utc>::from_timestamp(seconds, nanos)` rendered with
/// `to_rfc3339`. The contract names the result.
#[verifier::external_body]
fn timestamp_text(seconds: i64, nanos: u32) -> (r: Option<String>)
    ensures
        opt_string_view(r) == rfc3339_at(seconds, nanos),
{
    chrono::DateTime::<chrono::Utc>::from_timestamp(seconds, nanos).map(|t| t.to_rfc3339())
}

/// How many stored events a stream replays at most before going live.
pub const RECENT_AUDIT_LIMIT: i64 = 100;

/// The earliest time of the stored events a stream replays, as the store
/// compares it: the RFC 3339 text of the requested time (its nanoseconds
/// taken as unsigned), empty where that names no time; none where no time
/// is requested.
pub fn since_text(since: Option<(i64, i32)>) -> (r: Option<String>)
    ensures
        match since {
            None => r is None,
            Some((s, n)) => r matches Some(t) && t@ == match rfc3339_at(s, n as u32) {
                Some(x) => x,
                None => Seq::empty(),
            },
        },
{
    match since {
        None => None,
        Some((s, n)) => match timestamp_text(s, n as u32) {
            Some(t) => Some(t),
            None => Some(String::new()),
        },
    }
}

} // verus!
