//! What each query session is built from: the datasets grouped by namespace,
//! and the catalog of one schema per namespace for the requesting user.

use vstd::prelude::*;
use crate::assoc::NamedMap;
use crate::common::catalog::{source_type_named, DatasetInfo};
use crate::ids::uuid_parse;
use crate::common::error::ElanError;
use crate::common::proto::{dataset_decoded, dataset_from_proto, dataset_rejected, policy_decoded, policy_from_proto, policy_read_back, DatasetProto, PolicyProto};
use crate::iam::engine::SnapshotIamEngine;
use crate::iam::types::Policy;
use crate::iam::types::Subject;
use crate::query::catalog::{ElanCatalogProvider, ElanSchemaProvider};

verus! {

/// The datasets of a list grouped by namespace, each group in list order.
pub open spec fn grouped(ds: Seq<DatasetInfo>) -> Map<Seq<char>, Seq<DatasetInfo>>
    decreases ds.len(),
{
    if ds.len() == 0 {
        Map::empty()
    } else {
        let m = grouped(ds.drop_last());
        let k = ds.last().namespace@;
        let group = if m.dom().contains(k) { m[k] } else { Seq::empty() };
        m.insert(k, group.push(ds.last()))
    }
}

/// The view of a map of dataset lists.
pub open spec fn groups_view(m: Map<Seq<char>, Vec<DatasetInfo>>) -> Map<Seq<char>, Seq<DatasetInfo>> {
    m.map_values(|v: Vec<DatasetInfo>| v@)
}

/// Groups datasets by namespace, keeping their order within each namespace.
pub fn group_by_namespace(datasets: Vec<DatasetInfo>) -> (r: NamedMap<Vec<DatasetInfo>>)
    ensures
        groups_view(r.view()) == grouped(datasets@),
{
    let ghost all = datasets@;
    let mut by_ns: NamedMap<Vec<DatasetInfo>> = NamedMap::new();
    assert(groups_view(by_ns.view()) =~= grouped(all.take(0)));
    for ds in it: datasets
        invariant
            it.seq() == all,
            groups_view(by_ns.view()) == grouped(all.take(it.index())),
    {
        let ghost i = it.index();
        let ghost before = by_ns.view();
        assert(all.take(i + 1).drop_last() =~= all.take(i));
        assert(all.take(i + 1).last() == ds);
        let key = ds.namespace.clone();
        let mut group = match by_ns.remove(key.as_str()) {
            Some(g) => g,
            None => Vec::new(),
        };
        group.push(ds);
        by_ns.insert(key, group);
        assert(groups_view(by_ns.view()) =~= grouped(all.take(i + 1)));
    }
    assert(all.take(all.len() as int) =~= all);
    by_ns
}

/// The catalog for `subject`: one schema per namespace holding that
/// namespace's datasets.
pub fn build_catalog(groups: NamedMap<Vec<DatasetInfo>>, subject: &Subject) -> (r: ElanCatalogProvider)
    ensures
        r.schemas().dom() == groups.view().dom(),
        forall|k: Seq<char>| #[trigger] r.schemas().dom().contains(k) ==> {
            &&& r.schemas()[k].namespace_text() == k
            &&& r.schemas()[k].datasets() == ElanSchemaProvider::by_name(groups.view()[k]@)
            &&& r.schemas()[k].subject().user_id == subject.user_id
            &&& r.schemas()[k].subject().groups@ == subject.groups@
        },
{
    let ghost gv = groups.view();
    let entries = groups.into_entries();
    let ghost es = entries@;
    let mut schemas: NamedMap<ElanSchemaProvider> = NamedMap::new();
    let ghost mut done: Seq<(String, Vec<DatasetInfo>)> = Seq::empty();
    for entry in it: entries
        invariant
            it.seq() == es,
            crate::json::distinct_keys(es),
            crate::json::pairs_map(es) == gv,
            done == es.take(it.index()),
            schemas.view().dom() == crate::json::pairs_map(done).dom(),
            forall|k: Seq<char>| #[trigger] schemas.view().dom().contains(k) ==> {
                &&& schemas.view()[k].namespace_text() == k
                &&& schemas.view()[k].datasets() == ElanSchemaProvider::by_name(crate::json::pairs_map(done)[k]@)
                &&& schemas.view()[k].subject().user_id == subject.user_id
                &&& schemas.view()[k].subject().groups@ == subject.groups@
            },
    {
        let ghost i = it.index();
        proof {
            done = done.push(entry);
            assert(es.take(i + 1) =~= done);
        }
        let (ns, list) = entry;
        let key = ns.clone();
        let provider = ElanSchemaProvider::new(ns, list, subject.duplicate());
        schemas.insert(key, provider);
        assert(done.drop_last() =~= es.take(i));
        assert(schemas.view().dom() =~= crate::json::pairs_map(done).dom());
    }
    assert(es.take(es.len() as int) =~= es);
    ElanCatalogProvider::new(schemas)
}

/// The policies the IAM service listed, one per message, in order.
pub fn decode_policies(protos: Vec<PolicyProto>) -> (r: Vec<Policy>)
    ensures
        r@.len() == protos@.len(),
        forall|i: int| 0 <= i < r@.len() ==> policy_decoded(protos@[i], #[trigger] r@[i]),
        forall|i: int| 0 <= i < r@.len() ==> policy_read_back(protos@[i], #[trigger] r@[i]),
{
    let ghost all = protos@;
    let mut out: Vec<Policy> = Vec::new();
    for p in it: protos
        invariant
            it.seq() == all,
            out@.len() == it.index(),
            forall|i: int| 0 <= i < out@.len() ==> policy_decoded(all[i], #[trigger] out@[i]),
            forall|i: int| 0 <= i < out@.len() ==> policy_read_back(all[i], #[trigger] out@[i]),
    {
        out.push(policy_from_proto(p));
    }
    out
}

/// The message describes a dataset: its id is a UUID and its source type is known.
pub open spec fn decodable(p: DatasetProto) -> bool {
    uuid_parse(p.dataset_id@) is Ok && source_type_named(p.source_type@) is Some
}

/// The datasets the catalog service listed, in order; the first message that
/// describes no dataset stops the load with its error.
pub fn decode_datasets(protos: Vec<DatasetProto>) -> (r: Result<Vec<DatasetInfo>, ElanError>)
    ensures
        match r {
            Ok(ds) => ds@.len() == protos@.len()
                && forall|i: int| 0 <= i < ds@.len() ==> dataset_decoded(protos@[i], #[trigger] ds@[i]),
            Err(e) => exists|k: int| 0 <= k < protos@.len() && dataset_rejected(#[trigger] protos@[k], e)
                && forall|i: int| 0 <= i < k ==> decodable(#[trigger] protos@[i]),
        },
{
    let ghost all = protos@;
    let mut out: Vec<DatasetInfo> = Vec::new();
    for p in it: protos
        invariant
            it.seq() == all,
            out@.len() == it.index(),
            forall|i: int| 0 <= i < out@.len() ==> dataset_decoded(all[i], #[trigger] out@[i]),
    {
        let ghost k = it.index();
        match dataset_from_proto(p) {
            Ok(d) => out.push(d),
            Err(e) => {
                proof {
                    assert(all == protos@);
                    assert forall|i: int| 0 <= i < k implies decodable(#[trigger] protos@[i]) by {
                        assert(dataset_decoded(all[i], out@[i]));
                    }
                }
                return Err(e);
            },
        }
    }
    Ok(out)
}

/// The IAM engine a query service starts with: one deciding by the loaded
/// policies, or, where they could not be loaded, one with no policy, which
/// denies every request.
pub fn engine_from_load(loaded: Result<Vec<Policy>, String>) -> (r: SnapshotIamEngine)
    ensures
        match loaded {
            Ok(ps) => r.policies() == ps@,
            Err(_) => r.policies().len() == 0,
        },
{
    match loaded {
        Ok(ps) => SnapshotIamEngine::new(ps),
        Err(_) => SnapshotIamEngine::new(Vec::new()),
    }
}

/// The datasets after a periodic catalog reload: the fresh ones where the
/// reload worked, else the ones held before. The flag tells whether the
/// number of namespaces changed.
pub fn refresh_datasets(current: NamedMap<Vec<DatasetInfo>>, fresh: Result<NamedMap<Vec<DatasetInfo>>, String>) -> (r: (NamedMap<Vec<DatasetInfo>>, bool))
    ensures
        match fresh {
            Ok(f) => r.0.view() == f.view() && r.1 == (f.view().dom().len() != current.view().dom().len()),
            Err(_) => r.0.view() == current.view() && !r.1,
        },
{
    match fresh {
        Ok(f) => {
            let before = current.len();
            let after = f.len();
            (f, before != after)
        },
        Err(_) => (current, false),
    }
}

} // verus!
