//! The messages elan services exchange over gRPC, and their conversions to
//! and from the library's own types.

use vstd::prelude::*;
use crate::assoc::NamedMap;
use crate::common::catalog::{DatasetInfo, SourceType, source_type_name, source_type_named};
use crate::common::error::ElanError;
use crate::iam::engine::IamEngine;
use crate::iam::types::{AccessDecision, ColumnMask, DecisionView, MaskKind, Policy, PolicyEffect, ResourceId, Subject, SubjectType};
use crate::ids::{new_uuid_v4, parse_uuid, uuid_parse, uuid_text, uuid_to_text};
use crate::json::{compact_json, json_compact, json_string_map, pairs_map, render_string_map, text_pairs_map};
use crate::text::{none_if_empty, non_empty, or_empty, str_eq, text_or_empty};

verus! {

/// A dataset as the catalog service sends it.
#[derive(Debug, Clone)]
pub struct DatasetProto {
    pub dataset_id: String,
    pub name: String,
    pub namespace: String,
    pub source_type: String,
    pub coordinator_id: String,
    pub executor_endpoint: String,
    pub arrow_schema_ipc: Vec<u8>,
    pub metadata_json: String,
}

/// `p` is the message for dataset `d`.
pub open spec fn proto_of_dataset(d: DatasetInfo, p: DatasetProto) -> bool {
    &&& p.dataset_id@ == uuid_text(d.id)
    &&& p.name == d.name
    &&& p.namespace == d.namespace
    &&& p.source_type@ == source_type_name(d.source_type)
    &&& p.coordinator_id == d.coordinator_id
    &&& p.executor_endpoint == d.executor_endpoint
    &&& p.arrow_schema_ipc == d.schema_ipc
    &&& p.metadata_json == d.metadata
}

/// The message for a dataset.
pub fn dataset_to_proto(d: DatasetInfo) -> (r: DatasetProto)
    ensures
        proto_of_dataset(d, r),
{
    DatasetProto {
        dataset_id: uuid_to_text(d.id),
        name: d.name,
        namespace: d.namespace,
        source_type: d.source_type.to_string(),
        coordinator_id: d.coordinator_id,
        executor_endpoint: d.executor_endpoint,
        arrow_schema_ipc: d.schema_ipc,
        metadata_json: d.metadata,
    }
}

/// `d` is the dataset that message `p` describes: its id parses as a UUID,
/// its source type is known, and metadata that is not JSON counts as JSON
/// `null`.
pub open spec fn dataset_decoded(p: DatasetProto, d: DatasetInfo) -> bool {
    &&& uuid_parse(p.dataset_id@) == Ok::<u128, Seq<char>>(d.id)
    &&& source_type_named(p.source_type@) == Some(d.source_type)
    &&& d.name == p.name
    &&& d.namespace == p.namespace
    &&& d.coordinator_id == p.coordinator_id
    &&& d.executor_endpoint == p.executor_endpoint
    &&& d.schema_ipc == p.arrow_schema_ipc
    &&& d.metadata@ == match json_compact(p.metadata_json@) {
        Ok(c) => c,
        Err(_) => "null"@,
    }
}

/// Decoding gave back dataset `d`: every field as it was, the metadata
/// rendered compactly again.
pub open spec fn reads_back(d: DatasetInfo, r: Result<DatasetInfo, ElanError>) -> bool {
    r matches Ok(x) && {
        &&& x.id == d.id
        &&& x.name == d.name
        &&& x.namespace == d.namespace
        &&& x.source_type == d.source_type
        &&& x.coordinator_id == d.coordinator_id
        &&& x.executor_endpoint == d.executor_endpoint
        &&& x.schema_ipc == d.schema_ipc
        &&& x.metadata@ == match json_compact(d.metadata@) {
            Ok(c) => c,
            Err(_) => "null"@,
        }
    }
}

/// `e` is why message `p` describes no dataset: its id is not a UUID, else
/// its source type is unknown.
pub open spec fn dataset_rejected(p: DatasetProto, e: ElanError) -> bool {
    match uuid_parse(p.dataset_id@) {
        Err(m) => e matches ElanError::Uuid(t) && t@ == m,
        Ok(_) => source_type_named(p.source_type@) is None
            && (e matches ElanError::Config(t) && t@ == "unknown source type: "@ + p.source_type@),
    }
}

/// The dataset a catalog message describes: its id must parse as a UUID and
/// its source type must be known (checked in that order); metadata that is
/// not JSON counts as JSON `null`.
pub fn dataset_from_proto(p: DatasetProto) -> (r: Result<DatasetInfo, ElanError>)
    ensures
        match r {
            Ok(d) => dataset_decoded(p, d),
            Err(e) => dataset_rejected(p, e),
        },
        forall|d: DatasetInfo| #[trigger] proto_of_dataset(d, p) ==> reads_back(d, r),
{
    let id = match parse_uuid(p.dataset_id.as_str()) {
        Ok(id) => id,
        Err(e) => return Err(ElanError::Uuid(e)),
    };
    proof {
        assert forall|d: DatasetInfo| #[trigger] proto_of_dataset(d, p) implies
            uuid_parse(p.dataset_id@) == Ok::<u128, Seq<char>>(d.id)
            && source_type_named(p.source_type@) == Some(d.source_type) by {
            crate::common::catalog::law_source_type_round_trip(d.source_type);
        }
    }
    let source_type = match SourceType::try_from(p.source_type.as_str()) {
        Ok(t) => t,
        Err(e) => return Err(e),
    };
    let metadata = match compact_json(p.metadata_json.as_str()) {
        Ok(c) => c,
        Err(_) => {
            proof {
                broadcast use vstd::string::group_string_axioms;
            }
            "null".to_string()
        },
    };
    Ok(DatasetInfo {
        id,
        name: p.name,
        namespace: p.namespace,
        source_type,
        coordinator_id: p.coordinator_id,
        executor_endpoint: p.executor_endpoint,
        schema_ipc: p.arrow_schema_ipc,
        metadata,
    })
}

/// A policy as the IAM service sends it: subject type `user` or `group`,
/// effect 0 for Allow and 1 for Deny, empty texts for absent filters.
#[derive(Debug, Clone)]
pub struct PolicyProto {
    pub policy_id: String,
    pub subject_name: String,
    pub subject_type: String,
    pub resource_pattern: String,
    pub action: String,
    pub effect: i32,
    pub row_filter: String,
    pub column_mask_json: String,
    pub priority: i32,
}

/// The name a subject type is written as.
pub open spec fn subject_type_name(t: SubjectType) -> Seq<char> {
    match t {
        SubjectType::User => "user"@,
        SubjectType::Group => "group"@,
    }
}

/// `r` is the message for policy `p`: effect 0 for Allow and 1 for Deny,
/// empty texts for absent filters.
pub open spec fn proto_of_policy(p: Policy, r: PolicyProto) -> bool {
    &&& r.policy_id@ == uuid_text(p.id)
    &&& r.subject_name == p.subject_name
    &&& r.subject_type@ == subject_type_name(p.subject_type)
    &&& r.resource_pattern == p.resource_pattern
    &&& r.action == p.action
    &&& r.effect == (match p.effect {
        PolicyEffect::Allow => 0i32,
        PolicyEffect::Deny => 1i32,
    })
    &&& r.row_filter@ == text_or_empty(p.row_filter)
    &&& r.column_mask_json@ == text_or_empty(p.column_mask_json)
    &&& r.priority == p.priority
}

/// The policy's filters are absent or not empty, so that their messages
/// tell them apart.
pub open spec fn filters_not_empty(p: Policy) -> bool {
    &&& p.row_filter matches Some(f) ==> f@.len() > 0
    &&& p.column_mask_json matches Some(m) ==> m@.len() > 0
}

/// `r` holds the values of policy `q`.
pub open spec fn same_policy(q: Policy, r: Policy) -> bool {
    &&& r.id == q.id
    &&& r.subject_name == q.subject_name
    &&& r.subject_type == q.subject_type
    &&& r.resource_pattern == q.resource_pattern
    &&& r.action == q.action
    &&& r.effect == q.effect
    &&& opt_view(r.row_filter) == opt_view(q.row_filter)
    &&& opt_view(r.column_mask_json) == opt_view(q.column_mask_json)
    &&& r.priority == q.priority
}

/// The message for a policy.
pub fn policy_to_proto(p: Policy) -> (r: PolicyProto)
    ensures
        proto_of_policy(p, r),
{
    proof {
        broadcast use vstd::string::group_string_axioms;
    }
    PolicyProto {
        policy_id: uuid_to_text(p.id),
        subject_name: p.subject_name,
        subject_type: match p.subject_type {
            SubjectType::User => "user".to_string(),
            SubjectType::Group => "group".to_string(),
        },
        resource_pattern: p.resource_pattern,
        action: p.action,
        effect: match p.effect {
            PolicyEffect::Allow => 0,
            PolicyEffect::Deny => 1,
        },
        row_filter: or_empty(&p.row_filter),
        column_mask_json: or_empty(&p.column_mask_json),
        priority: p.priority,
    }
}

/// `r` is the policy message `p` describes: subject type `group` is a group
/// policy and anything else a user policy; effect 1 is Deny and anything
/// else Allow; empty texts are absent filters. An id that is not a UUID
/// leaves the policy's id open.
pub open spec fn policy_decoded(p: PolicyProto, r: Policy) -> bool {
    &&& uuid_parse(p.policy_id@) matches Ok(id) ==> r.id == id
    &&& r.subject_name == p.subject_name
    &&& r.subject_type == (if p.subject_type@ == "group"@ { SubjectType::Group } else { SubjectType::User })
    &&& r.resource_pattern == p.resource_pattern
    &&& r.action == p.action
    &&& r.effect == (if p.effect == 1 { PolicyEffect::Deny } else { PolicyEffect::Allow })
    &&& opt_view(r.row_filter) == none_if_empty(p.row_filter@)
    &&& opt_view(r.column_mask_json) == none_if_empty(p.column_mask_json@)
    &&& r.priority == p.priority
}

/// Policy `r`, decoded from message `p`, is every policy with filters absent
/// or not empty that `p` is the message of.
pub open spec fn policy_read_back(p: PolicyProto, r: Policy) -> bool {
    forall|q: Policy| #[trigger] proto_of_policy(q, p) && filters_not_empty(q) ==> same_policy(q, r)
}

/// The policy a message describes. An id that is not a UUID is replaced by
/// a fresh random one.
pub fn policy_from_proto(p: PolicyProto) -> (r: Policy)
    ensures
        policy_decoded(p, r),
        uuid_parse(p.policy_id@) is Err ==> crate::ids::is_v4_uuid(r.id),
        forall|q: Policy| #[trigger] proto_of_policy(q, p) && filters_not_empty(q) ==> same_policy(q, r),
{
    let id = match parse_uuid(p.policy_id.as_str()) {
        Ok(id) => id,
        Err(_) => new_uuid_v4(),
    };
    proof {
        reveal_strlit("user");
        reveal_strlit("group");
        assert("user"@ != "group"@) by {
            assert("user"@.len() != "group"@.len());
        }
    }
    let subject_type = if str_eq(p.subject_type.as_str(), "group") {
        SubjectType::Group
    } else {
        SubjectType::User
    };
    let effect = if p.effect == 1 {
        PolicyEffect::Deny
    } else {
        PolicyEffect::Allow
    };
    Policy {
        id,
        subject_name: p.subject_name,
        subject_type,
        resource_pattern: p.resource_pattern,
        action: p.action,
        effect,
        row_filter: non_empty(p.row_filter),
        column_mask_json: non_empty(p.column_mask_json),
        priority: p.priority,
    }
}

/// The view of an optional string.
pub open spec fn opt_view(s: Option<String>) -> Option<Seq<char>> {
    match s {
        Some(t) => Some(t@),
        None => None,
    }
}

/// The effect text a new policy is stored with: `Deny` for effect 1, `Allow` otherwise.
pub fn effect_text(effect: i32) -> (r: &'static str)
    ensures
        r@ == (if effect == 1 { "Deny"@ } else { "Allow"@ }),
{
    if effect == 1 {
        "Deny"
    } else {
        "Allow"
    }
}

/// A request to decide one access.
#[derive(Debug, Clone)]
pub struct AccessRequest {
    pub user_id: String,
    pub groups: Vec<String>,
    pub namespace: String,
    pub dataset: String,
    pub action: String,
}

/// The answer to an access request: empty texts stand for absent values.
#[derive(Debug, Clone)]
pub struct AccessDecisionProto {
    pub allowed: bool,
    pub reason: String,
    pub row_filter: String,
    pub column_mask_json: String,
}

/// The name a mask kind is written as.
pub open spec fn mask_kind_name(k: MaskKind) -> Seq<char> {
    match k {
        MaskKind::Redact => "REDACT"@,
        MaskKind::Sha256 => "SHA256"@,
    }
}

/// Each masked column with the name of its kind.
pub open spec fn mask_names(m: Map<Seq<char>, MaskKind>) -> Map<Seq<char>, Seq<char>> {
    m.map_values(|k: MaskKind| mask_kind_name(k))
}

/// The answer a decision is sent as. An Allow's column mask is written as a
/// JSON object mapping each column to its kind's name.
pub open spec fn decision_proto_matches(d: DecisionView, r: AccessDecisionProto) -> bool {
    match d {
        DecisionView::Allow { row_filter, column_mask } => {
            &&& r.allowed
            &&& r.reason@.len() == 0
            &&& r.row_filter@ == match row_filter {
                Some(f) => f,
                None => Seq::empty(),
            }
            &&& match column_mask {
                None => r.column_mask_json@.len() == 0,
                Some(m) => json_string_map(r.column_mask_json@)
                    == Some(mask_names(m)),
            }
        },
        DecisionView::Deny { reason } => {
            &&& !r.allowed
            &&& r.reason@ == reason
            &&& r.row_filter@.len() == 0
            &&& r.column_mask_json@.len() == 0
        },
    }
}

/// The column mask as a JSON object; of two entries for one column the
/// later one counts.
fn mask_to_json(m: &ColumnMask) -> (r: String)
    ensures
        json_string_map(r@) == Some(mask_names(m.view())),
{
    let mut names: NamedMap<String> = NamedMap::new();
    let n = m.0.len();
    let mut i: usize = 0;
    proof {
        broadcast use vstd::string::group_string_axioms;
    }
    assert(names.view().map_values(|v: String| v@) =~= mask_names(pairs_map(m.0@.take(0))));
    while i < n
        invariant
            n == m.0@.len(),
            i <= n,
            names.view().map_values(|v: String| v@) == mask_names(pairs_map(m.0@.take(i as int))),
        decreases n - i,
    {
        let name = match m.0[i].1 {
            MaskKind::Redact => "REDACT".to_string(),
            MaskKind::Sha256 => "SHA256".to_string(),
        };
        let ghost before = names.view();
        let ghost nv = name@;
        let ghost key = m.0@[i as int].0@;
        assert(nv == mask_kind_name(m.0@[i as int].1));
        names.insert(m.0[i].0.clone(), name);
        assert(m.0@.take(i + 1).drop_last() =~= m.0@.take(i as int));
        assert(m.0@.take(i + 1).last() == m.0@[i as int]);
        assert(pairs_map(m.0@.take(i + 1)) == pairs_map(m.0@.take(i as int)).insert(key, m.0@[i as int].1));
        assert(names.view() == before.insert(key, names.view()[key]));
        assert(names.view()[key]@ == nv);
        assert(names.view().map_values(|v: String| v@) =~= before.map_values(|v: String| v@).insert(key, nv));
        assert(mask_names(pairs_map(m.0@.take(i + 1))) =~= mask_names(pairs_map(m.0@.take(i as int))).insert(key, nv));
        i += 1;
    }
    assert(m.0@.take(n as int) =~= m.0@);
    let pairs = names.into_entries();
    assert(text_pairs_map(pairs@) =~= mask_names(m.view()));
    render_string_map(&pairs)
}

/// The answer a decision is sent as.
pub fn decision_to_proto(d: AccessDecision) -> (r: AccessDecisionProto)
    ensures
        decision_proto_matches(d@, r),
{
    match d {
        AccessDecision::Allow { row_filter, column_mask } => {
            let mask_json = match &column_mask {
                Some(m) => mask_to_json(m),
                None => String::new(),
            };
            AccessDecisionProto {
                allowed: true,
                reason: String::new(),
                row_filter: or_empty(&row_filter),
                column_mask_json: mask_json,
            }
        },
        AccessDecision::Deny { reason } => AccessDecisionProto {
            allowed: false,
            reason,
            row_filter: String::new(),
            column_mask_json: String::new(),
        },
    }
}

/// Decides an access request with `engine` and answers it.
pub fn check_access<E: IamEngine>(engine: &E, req: AccessRequest) -> (r: AccessDecisionProto)
    ensures
        decision_proto_matches(
            engine.decision(Subject { user_id: req.user_id, groups: req.groups }, req.namespace@, req.dataset@, req.action@),
            r,
        ),
{
    let subject = Subject { user_id: req.user_id, groups: req.groups };
    let resource = ResourceId { namespace: req.namespace, name: req.dataset };
    let decision = engine.check(&subject, &resource, req.action.as_str());
    decision_to_proto(decision)
}

/// An audit event as the audit service carries it. `occurred_at` is seconds
/// and nanoseconds since the Unix epoch, where known.
#[derive(Debug, Clone)]
pub struct AuditEventProto {
    pub event_id: String,
    pub event_type: String,
    pub occurred_at: Option<(i64, i32)>,
    pub source_service: String,
    pub user_id: String,
    pub session_id: String,
    pub payload_json: String,
}

/// An event is selected by a list of event types: every event by an empty
/// list, else the events whose type the list names.
pub open spec fn event_type_selected(filter: Seq<String>, event_type: Seq<char>) -> bool {
    filter.len() == 0 || exists|i: int| 0 <= i < filter.len() && (#[trigger] filter[i])@ == event_type
}

/// Whether `filter` selects events of type `event_type`.
pub fn selects_event_type(filter: &Vec<String>, event_type: &String) -> (r: bool)
    ensures
        r == event_type_selected(filter@, event_type@),
{
    let n = filter.len();
    if n == 0 {
        return true;
    }
    let mut i: usize = 0;
    while i < n
        invariant
            n == filter@.len(),
            i <= n,
            forall|k: int| 0 <= k < i ==> (#[trigger] filter@[k])@ != event_type@,
        decreases n - i,
    {
        if filter[i] == *event_type {
            assert((filter@[i as int])@ == event_type@);
            return true;
        }
        i += 1;
    }
    false
}

/// A stored audit event: id, type, time, source service, user, session and payload.
#[derive(Debug, Clone)]
pub struct AuditRow {
    pub id: String,
    pub event_type: String,
    pub occurred_at: String,
    pub source_service: String,
    pub user_id: String,
    pub session_id: Option<String>,
    pub payload_json: String,
}

/// The stored events a list of event types selects, in their order.
pub open spec fn selected_rows(rows: Seq<AuditRow>, filter: Seq<String>) -> Seq<AuditRow>
    decreases rows.len(),
{
    if rows.len() == 0 {
        Seq::empty()
    } else {
        let rest = selected_rows(rows.drop_last(), filter);
        if event_type_selected(filter, rows.last().event_type@) {
            rest.push(rows.last())
        } else {
            rest
        }
    }
}

/// An empty list of event types selects every stored event, in order.
pub proof fn law_empty_filter_selects_all(rows: Seq<AuditRow>)
    ensures
        selected_rows(rows, Seq::empty()) == rows,
    decreases rows.len(),
{
    if rows.len() > 0 {
        law_empty_filter_selects_all(rows.drop_last());
        assert(rows.drop_last().push(rows.last()) =~= rows);
    }
}

/// A list of event types selects an event whose type is any one of its
/// entries, wherever the entry stands in the list.
pub proof fn law_listed_event_type_selected(filter: Seq<String>, event_type: Seq<char>, i: int)
    requires
        0 <= i < filter.len(),
        filter[i]@ == event_type,
    ensures
        event_type_selected(filter, event_type),
{
}

/// A list with entries selects no event whose type none of its entries is.
pub proof fn law_unlisted_event_type_dropped(filter: Seq<String>, event_type: Seq<char>)
    requires
        filter.len() > 0,
        forall|i: int| 0 <= i < filter.len() ==> (#[trigger] filter[i])@ != event_type,
    ensures
        !event_type_selected(filter, event_type),
{
}

/// Filtering stored events keeps every event whose type is one of the
/// filter's entries, and keeps no event whose type no entry names.
pub proof fn law_filter_keeps_listed_types(rows: Seq<AuditRow>, filter: Seq<String>, k: int, i: int)
    requires
        0 <= k < rows.len(),
        0 <= i < filter.len(),
        filter[i]@ == rows[k].event_type@,
    ensures
        selected_rows(rows, filter).contains(rows[k]),
    decreases rows.len(),
{
    let rest = selected_rows(rows.drop_last(), filter);
    if k == rows.len() - 1 {
        law_listed_event_type_selected(filter, rows.last().event_type@, i);
        assert(selected_rows(rows, filter) == rest.push(rows.last()));
        assert(selected_rows(rows, filter)[rest.len() as int] == rows[k]);
    } else {
        assert(rows.drop_last()[k] == rows[k]);
        law_filter_keeps_listed_types(rows.drop_last(), filter, k, i);
        let j = choose|j: int| 0 <= j < rest.len() && rest[j] == rows[k];
        if event_type_selected(filter, rows.last().event_type@) {
            assert(selected_rows(rows, filter)[j] == rows[k]);
        }
    }
}

/// Every event that filtering keeps has a type the filter selects.
pub proof fn law_filter_keeps_only_selected(rows: Seq<AuditRow>, filter: Seq<String>, j: int)
    requires
        0 <= j < selected_rows(rows, filter).len(),
    ensures
        event_type_selected(filter, selected_rows(rows, filter)[j].event_type@),
    decreases rows.len(),
{
    let rest = selected_rows(rows.drop_last(), filter);
    if j < rest.len() {
        law_filter_keeps_only_selected(rows.drop_last(), filter, j);
    }
}

/// Keeps the stored events whose type `filter` selects, in their order.
pub fn filter_audit_rows(rows: Vec<AuditRow>, filter: &Vec<String>) -> (r: Vec<AuditRow>)
    ensures
        r@ == selected_rows(rows@, filter@),
{
    let ghost all = rows@;
    let mut out: Vec<AuditRow> = Vec::new();
    for row in it: rows
        invariant
            it.seq() == all,
            out@ == selected_rows(all.take(it.index()), filter@),
    {
        let ghost i = it.index();
        assert(all.take(i + 1).drop_last() =~= all.take(i));
        assert(all.take(i + 1).last() == row);
        if selects_event_type(filter, &row.event_type) {
            out.push(row);
        }
    }
    assert(all.take(all.len() as int) =~= all);
    out
}

/// The message for a stored audit event; the time is not carried.
pub fn audit_row_to_proto(row: AuditRow) -> (r: AuditEventProto)
    ensures
        r.event_id == row.id,
        r.event_type == row.event_type,
        r.occurred_at is None,
        r.source_service == row.source_service,
        r.user_id == row.user_id,
        r.session_id@ == text_or_empty(row.session_id),
        r.payload_json == row.payload_json,
{
    AuditEventProto {
        event_id: row.id,
        event_type: row.event_type,
        occurred_at: None,
        source_service: row.source_service,
        user_id: row.user_id,
        session_id: or_empty(&row.session_id),
        payload_json: row.payload_json,
    }
}

} // verus!
