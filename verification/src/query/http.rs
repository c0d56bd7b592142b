//! The rules of the query service's HTTP API: who is asking, which session a
//! query belongs to, how a failed query is answered, and the shape of the
//! catalog and query responses.
//!
//! Authentication is a proof of concept: `Authorization: Bearer <username>`
//! names the user directly, with no signature to check.

use vstd::prelude::*;
use crate::audit::event::{AuditEvent, AuditPayload, AuditSubject, QueryCompletedPayload, QueryFailedPayload, QuerySubmittedPayload};
use crate::common::api::{server_error, CatalogResponse, DatasetSummary, ErrorResponse, NamespaceInfo, QueryRequest, QueryResponse};
use crate::iam::engine::IamEngine;
use crate::iam::types::Subject;
use crate::ids::{is_v4_uuid, new_uuid_v4, uuid_text, uuid_to_text};
use crate::query::catalog::{visible_to, ElanCatalogProvider};
use crate::text::{contains_seq, has_prefix, str_contains, strip_prefix};

verus! {

/// The user named by an `Authorization` header value: what follows
/// `Bearer `, or `anonymous` where the header is absent or has another form.
pub open spec fn subject_user(authorization: Option<Seq<char>>) -> Seq<char> {
    match authorization {
        Some(a) => if has_prefix(a, "Bearer "@) {
            a.skip(7)
        } else {
            "anonymous"@
        },
        None => "anonymous"@,
    }
}

/// The view of an optional header value.
pub open spec fn opt_str_view(s: Option<&str>) -> Option<Seq<char>> {
    match s {
        Some(a) => Some(a@),
        None => None,
    }
}

/// The requesting user, from the `Authorization` header's value (absent
/// where there is no such header or it is not visible ASCII). Such a user
/// belongs to no group.
pub fn extract_subject(authorization: Option<&str>) -> (r: Subject)
    ensures
        r.user_id@ == subject_user(opt_str_view(authorization)),
        r.groups@.len() == 0,
{
    proof {
        reveal_strlit("Bearer ");
        reveal_strlit("anonymous");
        broadcast use vstd::string::group_string_axioms;
    }
    let user_id = match authorization {
        Some(a) => match strip_prefix(a, "Bearer ") {
            Some(rest) => rest,
            None => "anonymous".to_string(),
        },
        None => "anonymous".to_string(),
    };
    Subject { user_id, groups: Vec::new() }
}

/// The session a query belongs to: the one the request names, else the
/// hyphenated form of a fresh random UUID.
pub fn session_id(request: &QueryRequest) -> (r: String)
    ensures
        request.session_id matches Some(s) ==> r@ == s@,
        request.session_id is None ==> exists|v: u128| is_v4_uuid(v) && r@ == uuid_text(v),
{
    match &request.session_id {
        Some(s) => s.clone(),
        None => {
            let v = new_uuid_v4();
            uuid_to_text(v)
        },
    }
}

/// The name under which the query service reports its audit events.
pub open spec fn query_service_name() -> Seq<char> {
    "elan-query"@
}

/// The audit subject of a query: the requesting user and groups, in `session_id`.
pub fn audit_subject(subject: &Subject, session_id: String) -> (r: AuditSubject)
    ensures
        r.user_id == subject.user_id,
        r.groups@ == subject.groups@,
        r.session_id == Some(session_id),
{
    let s = subject.duplicate();
    AuditSubject { user_id: s.user_id, groups: s.groups, session_id: Some(session_id) }
}

/// The event reporting that query `query_id` was accepted, before any table
/// is resolved or any executor chosen.
pub fn submitted_event(instance: &str, subject: AuditSubject, query_id: u128, sql: String) -> (r: AuditEvent)
    ensures
        r.schema_version == 1,
        r.source_service@ == query_service_name(),
        r.source_instance@ == instance@,
        r.subject == subject,
        r.payload matches AuditPayload::QuerySubmitted(p) && p.query_id == query_id && p.sql == sql
            && p.resolved_tables@.len() == 0 && p.executors@.len() == 0,
{
    let payload = AuditPayload::QuerySubmitted(QuerySubmittedPayload {
        query_id,
        sql,
        resolved_tables: Vec::new(),
        executors: Vec::new(),
    });
    AuditEvent::new("elan-query", instance, subject, payload)
}

/// The event reporting that query `query_id` returned `rows_returned` rows
/// after `duration_ms` milliseconds. Scanned bytes are not measured and are
/// reported as zero.
pub fn completed_event(instance: &str, subject: AuditSubject, query_id: u128, duration_ms: u64, rows_returned: usize) -> (r: AuditEvent)
    ensures
        r.schema_version == 1,
        r.source_service@ == query_service_name(),
        r.source_instance@ == instance@,
        r.subject == subject,
        r.payload == AuditPayload::QueryCompleted(QueryCompletedPayload {
            query_id, duration_ms, rows_returned, bytes_scanned: 0,
        }),
{
    let payload = AuditPayload::QueryCompleted(QueryCompletedPayload { query_id, duration_ms, rows_returned, bytes_scanned: 0 });
    AuditEvent::new("elan-query", instance, subject, payload)
}

/// The event reporting that query `query_id` failed with `message` after
/// `duration_ms` milliseconds; the error kind is that of the query engine.
pub fn failed_event(instance: &str, subject: AuditSubject, query_id: u128, duration_ms: u64, message: &str) -> (r: AuditEvent)
    ensures
        r.schema_version == 1,
        r.source_service@ == query_service_name(),
        r.source_instance@ == instance@,
        r.subject == subject,
        r.payload matches AuditPayload::QueryFailed(p) && p.query_id == query_id && p.duration_ms == duration_ms
            && p.error_kind@ == "DataFusionError"@ && p.error_msg@ == message@,
{
    proof {
        broadcast use vstd::string::group_string_axioms;
    }
    let payload = AuditPayload::QueryFailed(QueryFailedPayload {
        query_id,
        duration_ms,
        error_kind: "DataFusionError".to_string(),
        error_msg: message.to_string(),
    });
    AuditEvent::new("elan-query", instance, subject, payload)
}

/// An error text that reports a refused access.
pub open spec fn reports_access_denied(message: Seq<char>) -> bool {
    contains_seq(message, "AccessDenied"@) || contains_seq(message, "permission denied"@)
}

/// Whether a query's error text reports a refused access.
pub fn is_access_denied(message: &str) -> (r: bool)
    ensures
        r == reports_access_denied(message@),
{
    str_contains(message, "AccessDenied") || str_contains(message, "permission denied")
}

/// The HTTP status of a refused access.
pub const FORBIDDEN: u16 = 403;

/// The answer to a query that failed with `message`: 403 `AccessDenied`
/// where the message reports a refused access, else 500 `query execution
/// failed`; the message is the detail either way.
pub fn query_failure(message: &str) -> (r: (u16, ErrorResponse))
    ensures
        reports_access_denied(message@) ==> r.0 == 403 && r.1.error@ == "AccessDenied"@,
        !reports_access_denied(message@) ==> r.0 == 500 && r.1.error@ == "query execution failed"@,
        r.1.detail matches Some(d) && d@ == message@,
{
    proof {
        broadcast use vstd::string::group_string_axioms;
    }
    if is_access_denied(message) {
        (FORBIDDEN, ErrorResponse { error: "AccessDenied".to_string(), detail: Some(message.to_string()) })
    } else {
        server_error("query execution failed", message)
    }
}

/// A batch of query results: its column names, and each row's cells as
/// SQL NULL or the text of the value.
#[derive(Debug, Clone)]
pub struct ResultBatch {
    pub columns: Vec<String>,
    pub rows: Vec<Vec<Option<String>>>,
}

/// The rows of all batches, batch after batch.
pub open spec fn all_rows(batches: Seq<ResultBatch>) -> Seq<Vec<Option<String>>>
    decreases batches.len(),
{
    if batches.len() == 0 {
        Seq::empty()
    } else {
        all_rows(batches.drop_last()) + batches.last().rows@
    }
}

/// The response to a query that produced `batches`: the first batch's
/// columns (none where there is no batch) and the rows of all batches in order.
pub fn batches_to_response(query_id: u128, batches: Vec<ResultBatch>, duration_ms: u64) -> (r: QueryResponse)
    ensures
        r.query_id == query_id,
        r.duration_ms == duration_ms,
        batches@.len() == 0 ==> r.columns@.len() == 0,
        batches@.len() > 0 ==> r.columns@ == batches@[0].columns@,
        r.rows@ == all_rows(batches@),
{
    let ghost all = batches@;
    let mut columns: Vec<String> = Vec::new();
    let mut rows: Vec<Vec<Option<String>>> = Vec::new();
    let mut first = true;
    for batch in it: batches
        invariant
            it.seq() == all,
            rows@ == all_rows(all.take(it.index())),
            first == (it.index() == 0),
            it.index() == 0 ==> columns@.len() == 0,
            it.index() > 0 ==> columns@ == all[0].columns@,
    {
        let ghost i = it.index();
        assert(all.take(i + 1).drop_last() =~= all.take(i));
        assert(all.take(i + 1).last() == batch);
        let ResultBatch { columns: cols, rows: mut batch_rows } = batch;
        if first {
            columns = cols;
            first = false;
        }
        rows.append(&mut batch_rows);
    }
    assert(all.take(all.len() as int) =~= all);
    QueryResponse { query_id, columns, rows, duration_ms }
}

/// The number of rows of all batches.
pub fn rows_returned(batches: &Vec<ResultBatch>) -> (r: usize)
    requires
        all_rows(batches@).len() <= usize::MAX,
    ensures
        r == all_rows(batches@).len(),
{
    let mut total: usize = 0;
    let mut i: usize = 0;
    while i < batches.len()
        invariant
            i <= batches@.len(),
            all_rows(batches@).len() <= usize::MAX,
            total == all_rows(batches@.take(i as int)).len(),
        decreases batches@.len() - i,
    {
        assert(batches@.take(i + 1).drop_last() =~= batches@.take(i as int));
        proof {
            lemma_all_rows_prefix(batches@, i as int + 1);
        }
        total = total + batches[i].rows.len();
        i += 1;
    }
    assert(batches@.take(i as int) =~= batches@);
    total
}

/// The rows of a prefix are no more than the rows of the whole list.
proof fn lemma_all_rows_prefix(batches: Seq<ResultBatch>, k: int)
    requires
        0 <= k <= batches.len(),
    ensures
        all_rows(batches.take(k)).len() <= all_rows(batches).len(),
    decreases batches.len() - k,
{
    if k < batches.len() {
        lemma_all_rows_prefix(batches, k + 1);
        assert(batches.take(k + 1).drop_last() =~= batches.take(k));
    } else {
        assert(batches.take(k) =~= batches);
    }
}

/// A listed dataset: its name, with no source type or coordinator known.
pub open spec fn summary_of(d: DatasetSummary, name: Seq<char>) -> bool {
    d.name@ == name && d.source_type@ == "unknown"@ && d.coordinator_id@.len() == 0
}

/// `ns` lists a namespace of the catalog and, each once, the datasets of it
/// that its user may see.
pub open spec fn lists_namespace<E: IamEngine>(c: ElanCatalogProvider, engine: E, ns: NamespaceInfo) -> bool {
    let s = c.schemas()[ns.name@];
    &&& c.schemas().dom().contains(ns.name@)
    &&& forall|a: int, b: int| 0 <= a < b < ns.datasets@.len()
        ==> (#[trigger] ns.datasets@[a]).name@ != (#[trigger] ns.datasets@[b]).name@
    &&& forall|a: int| 0 <= a < ns.datasets@.len() ==> {
        let d = #[trigger] ns.datasets@[a];
        &&& summary_of(d, d.name@)
        &&& s.datasets().dom().contains(d.name@)
        &&& visible_to(engine, s.subject(), s.namespace_text(), d.name@)
    }
    &&& forall|k: Seq<char>| #[trigger] s.datasets().dom().contains(k)
        && visible_to(engine, s.subject(), s.namespace_text(), k)
        ==> exists|a: int| 0 <= a < ns.datasets@.len() && (#[trigger] ns.datasets@[a]).name@ == k
}

/// The catalog tree that `catalog` shows its user: every namespace once and,
/// in each, every dataset the user may see once. Where no catalog could be
/// built the tree is empty.
pub fn catalog_response<E: IamEngine>(catalog: Option<&ElanCatalogProvider>, engine: &E) -> (r: CatalogResponse)
    ensures
        catalog is None ==> r.namespaces@.len() == 0,
        catalog matches Some(c) ==> {
            &&& forall|i: int, j: int| 0 <= i < j < r.namespaces@.len()
                ==> (#[trigger] r.namespaces@[i]).name@ != (#[trigger] r.namespaces@[j]).name@
            &&& forall|k: Seq<char>| #[trigger] c.schemas().dom().contains(k)
                ==> exists|i: int| 0 <= i < r.namespaces@.len() && (#[trigger] r.namespaces@[i]).name@ == k
            &&& forall|i: int| 0 <= i < r.namespaces@.len() ==> lists_namespace(*c, *engine, #[trigger] r.namespaces@[i])
        },
{
    let mut namespaces: Vec<NamespaceInfo> = Vec::new();
    let c = match catalog {
        Some(c) => c,
        None => return CatalogResponse { namespaces },
    };
    let names = c.schema_names();
    let n = names.len();
    let mut i: usize = 0;
    while i < n
        invariant
            n == names@.len(),
            i <= n,
            namespaces@.len() == i,
            forall|a: int, b: int| 0 <= a < b < names@.len() ==> (#[trigger] names@[a])@ != (#[trigger] names@[b])@,
            forall|a: int| 0 <= a < names@.len() ==> c.schemas().dom().contains((#[trigger] names@[a])@),
            forall|k: Seq<char>| #[trigger] c.schemas().dom().contains(k) ==> exists|a: int| 0 <= a < names@.len() && (#[trigger] names@[a])@ == k,
            forall|a: int| 0 <= a < i ==> (#[trigger] namespaces@[a]).name@ == names@[a]@,
            forall|a: int| 0 <= a < i ==> lists_namespace(*c, *engine, #[trigger] namespaces@[a]),
        decreases n - i,
    {
        let name = &names[i];
        let schema = match c.schema(name.as_str()) {
            Some(s) => s,
            None => {
                assert(false);
                return CatalogResponse { namespaces };
            },
        };
        let tables = schema.table_names(engine);
        let datasets = summaries(&tables);
        let ghost before = namespaces@;
        let info = NamespaceInfo { name: name.clone(), datasets };
        proof {
            let s = c.schemas()[info.name@];
            assert(s == *schema);
            assert forall|a: int, b: int| 0 <= a < b < info.datasets@.len()
                implies (#[trigger] info.datasets@[a]).name@ != (#[trigger] info.datasets@[b]).name@ by {
                assert(summary_of(info.datasets@[a], tables@[a]@));
                assert(summary_of(info.datasets@[b], tables@[b]@));
            }
            assert forall|a: int| 0 <= a < info.datasets@.len() implies {
                let d = #[trigger] info.datasets@[a];
                &&& summary_of(d, d.name@)
                &&& s.datasets().dom().contains(d.name@)
                &&& visible_to(*engine, s.subject(), s.namespace_text(), d.name@)
            } by {
                assert(summary_of(info.datasets@[a], tables@[a]@));
            }
            assert forall|k: Seq<char>| #[trigger] s.datasets().dom().contains(k)
                && visible_to(*engine, s.subject(), s.namespace_text(), k)
                implies exists|a: int| 0 <= a < info.datasets@.len() && (#[trigger] info.datasets@[a]).name@ == k by {
                let a = choose|a: int| 0 <= a < tables@.len() && (#[trigger] tables@[a])@ == k;
                assert(summary_of(info.datasets@[a], tables@[a]@));
            }
            assert(lists_namespace(*c, *engine, info));
        }
        namespaces.push(info);
        proof {
            assert forall|a: int| 0 <= a < i + 1 implies (#[trigger] namespaces@[a]).name@ == names@[a]@ by {
                if a < i {
                    assert(namespaces@[a] == before[a]);
                }
            }
            assert forall|a: int| 0 <= a < i + 1 implies lists_namespace(*c, *engine, #[trigger] namespaces@[a]) by {
                if a < i {
                    assert(namespaces@[a] == before[a]);
                }
            }
        }
        i += 1;
    }
    let r = CatalogResponse { namespaces };
    proof {
        assert forall|x: int, y: int| 0 <= x < y < r.namespaces@.len()
            implies (#[trigger] r.namespaces@[x]).name@ != (#[trigger] r.namespaces@[y]).name@ by {
            assert(r.namespaces@[x].name@ == names@[x]@);
            assert(r.namespaces@[y].name@ == names@[y]@);
        }
        assert forall|k: Seq<char>| #[trigger] c.schemas().dom().contains(k)
            implies exists|i: int| 0 <= i < r.namespaces@.len() && (#[trigger] r.namespaces@[i]).name@ == k by {
            let a = choose|a: int| 0 <= a < names@.len() && (#[trigger] names@[a])@ == k;
            assert(r.namespaces@[a].name@ == names@[a]@);
        }
    }
    r
}

/// One summary per table name, in order.
fn summaries(tables: &Vec<String>) -> (r: Vec<DatasetSummary>)
    ensures
        r@.len() == tables@.len(),
        forall|a: int| 0 <= a < r@.len() ==> summary_of(#[trigger] r@[a], tables@[a]@),
{
    proof {
        broadcast use vstd::string::group_string_axioms;
    }
    let mut out: Vec<DatasetSummary> = Vec::new();
    let mut i: usize = 0;
    while i < tables.len()
        invariant
            i <= tables@.len(),
            out@.len() == i,
            forall|a: int| 0 <= a < i ==> summary_of(#[trigger] out@[a], tables@[a]@),
        decreases tables@.len() - i,
    {
        out.push(DatasetSummary {
            name: tables[i].clone(),
            source_type: "unknown".to_string(),
            coordinator_id: String::new(),
        });
        i += 1;
    }
    out
}

/// A query being served: who asks, as which audit subject, and its id.
#[derive(Debug)]
pub struct QueryStart {
    pub subject: Subject,
    pub audit_subject: AuditSubject,
    pub query_id: u128,
}

/// Starts serving a query: the user the `Authorization` header names, the
/// request's session (or a fresh one), and a fresh random query id.
pub fn begin_query(authorization: Option<&str>, request: &QueryRequest) -> (r: QueryStart)
    ensures
        r.subject.user_id@ == subject_user(opt_str_view(authorization)),
        r.subject.groups@.len() == 0,
        r.audit_subject.user_id == r.subject.user_id,
        r.audit_subject.groups@.len() == 0,
        r.audit_subject.session_id matches Some(s) && (request.session_id matches Some(given) ==> s@ == given@),
        request.session_id is None ==> (r.audit_subject.session_id matches Some(s) && exists|v: u128| is_v4_uuid(v) && s@ == uuid_text(v)),
        crate::ids::is_v4_uuid(r.query_id),
{
    let subject = extract_subject(authorization);
    let query_id = new_uuid_v4();
    let session = session_id(request);
    let audit_subject = audit_subject(&subject, session);
    QueryStart { subject, audit_subject, query_id }
}

/// What follows the attempt to set up the user's session: where it failed,
/// the 500 answer `session build failed` with the error; else the
/// `QuerySubmitted` event to publish before the SQL runs.
pub fn on_session(start: &QueryStart, instance: &str, sql: &str, built: Result<(), String>) -> (r: Result<AuditEvent, (u16, ErrorResponse)>)
    ensures
        match built {
            Err(e) => r matches Err((status, body)) && status == 500
                && body.error@ == "session build failed"@ && (body.detail matches Some(d) && d@ == e@),
            Ok(_) => r matches Ok(ev) && ev.source_service@ == query_service_name() && ev.source_instance@ == instance@
                && ev.subject.user_id == start.audit_subject.user_id
                && (ev.payload matches AuditPayload::QuerySubmitted(p) && p.query_id == start.query_id && p.sql@ == sql@),
        },
{
    match built {
        Err(e) => Err(server_error("session build failed", e.as_str())),
        Ok(_) => {
            let subject = AuditSubject {
                user_id: start.audit_subject.user_id.clone(),
                groups: start.audit_subject.groups.clone(),
                session_id: start.audit_subject.session_id.clone(),
            };
            proof {
                broadcast use vstd::string::group_string_axioms;
            }
            Ok(submitted_event(instance, subject, start.query_id, sql.to_string()))
        },
    }
}

/// What follows running the SQL for `duration_ms` milliseconds: the event
/// to publish (`QueryCompleted` with the number of rows, or `QueryFailed`
/// with the error) and the answer (the rows, or the failure's answer).
pub fn on_executed(start: &QueryStart, instance: &str, result: Result<Vec<ResultBatch>, String>, duration_ms: u64)
    -> (r: (AuditEvent, Result<QueryResponse, (u16, ErrorResponse)>))
    requires
        result matches Ok(bs) ==> all_rows(bs@).len() <= usize::MAX,
    ensures
        r.0.source_service@ == query_service_name(),
        r.0.source_instance@ == instance@,
        r.0.subject.user_id == start.audit_subject.user_id,
        r.0.subject.groups@ == start.audit_subject.groups@,
        r.0.subject.session_id == start.audit_subject.session_id,
        match result {
            Ok(bs) => {
                &&& r.0.payload == AuditPayload::QueryCompleted(QueryCompletedPayload {
                    query_id: start.query_id, duration_ms, rows_returned: all_rows(bs@).len() as usize, bytes_scanned: 0,
                })
                &&& r.1 matches Ok(resp) && resp.query_id == start.query_id && resp.duration_ms == duration_ms
                    && resp.rows@ == all_rows(bs@)
                    && (bs@.len() > 0 ==> resp.columns@ == bs@[0].columns@)
                    && (bs@.len() == 0 ==> resp.columns@.len() == 0)
            },
            Err(e) => {
                &&& r.0.payload matches AuditPayload::QueryFailed(p) && p.query_id == start.query_id
                    && p.duration_ms == duration_ms && p.error_kind@ == "DataFusionError"@ && p.error_msg@ == e@
                &&& r.1 matches Err((status, body)) && (body.detail matches Some(d) && d@ == e@)
                    && (reports_access_denied(e@) ==> status == 403 && body.error@ == "AccessDenied"@)
                    && (!reports_access_denied(e@) ==> status == 500 && body.error@ == "query execution failed"@)
            },
        },
{
    let subject = AuditSubject {
        user_id: start.audit_subject.user_id.clone(),
        groups: start.audit_subject.groups.clone(),
        session_id: start.audit_subject.session_id.clone(),
    };
    match result {
        Ok(batches) => {
            let rows = rows_returned(&batches);
            let event = completed_event(instance, subject, start.query_id, duration_ms, rows);
            (event, Ok(batches_to_response(start.query_id, batches, duration_ms)))
        },
        Err(e) => {
            let event = failed_event(instance, subject, start.query_id, duration_ms, e.as_str());
            (event, Err(query_failure(e.as_str())))
        },
    }
}

} // verus!
