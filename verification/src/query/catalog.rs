//! The catalog each user sees: one schema per namespace, each hiding the
//! datasets its user may not SELECT from.

use vstd::prelude::*;
use crate::assoc::NamedMap;
use crate::common::catalog::{same_dataset, DatasetInfo};
use crate::common::error::{ElanError, GrpcCode, GrpcStatus};
use crate::common::proto::{dataset_decoded, dataset_from_proto, dataset_rejected, DatasetProto};
use crate::query::remote_scan::{RemoteTableScanExec, SqlExpr};
use crate::schema::{decode_schema, field_views, ipc_schema, is_placeholder_schema, schema_or_empty, FieldInfo};
use crate::iam::catalog_filter::is_visible;
use crate::iam::engine::IamEngine;
use crate::iam::types::Subject;

verus! {

/// The dataset `name` of `namespace` is visible to `subject`.
pub open spec fn visible_to<E: IamEngine>(engine: E, subject: Subject, namespace: Seq<char>, name: Seq<char>) -> bool {
    engine.decision(subject, namespace, name, "SELECT"@) is Allow
}

/// The outcome of looking up a table in a schema.
#[derive(Debug)]
pub enum TableLookup<'a> {
    /// The user may not see the table.
    Hidden,
    /// The table is known.
    Cached(&'a DatasetInfo),
    /// The table is not known yet and must be fetched from the catalog service.
    Fetch,
}

/// The schema of one namespace for one user.
#[derive(Debug)]
pub struct ElanSchemaProvider {
    namespace: String,
    datasets: NamedMap<DatasetInfo>,
    subject: Subject,
}

impl ElanSchemaProvider {
    /// The datasets the schema knows, by name.
    pub closed spec fn datasets(&self) -> Map<Seq<char>, DatasetInfo> {
        self.datasets.view()
    }

    /// The namespace the schema is of.
    pub closed spec fn namespace_text(&self) -> Seq<char> {
        self.namespace@
    }

    /// The namespace the schema is of.
    pub fn namespace(&self) -> (r: &str)
        ensures
            r@ == self.namespace_text(),
    {
        self.namespace.as_str()
    }

    /// The user the schema is for.
    pub closed spec fn subject(&self) -> Subject {
        self.subject
    }

    /// The datasets the schema holds, by name: for two datasets with the same
    /// name the later one.
    pub open spec fn by_name(ds: Seq<DatasetInfo>) -> Map<Seq<char>, DatasetInfo>
        decreases ds.len(),
    {
        if ds.len() == 0 {
            Map::empty()
        } else {
            Self::by_name(ds.drop_last()).insert(ds.last().name@, ds.last())
        }
    }

    /// The schema of `namespace` for `subject`, holding `datasets`.
    pub fn new(namespace: String, datasets: Vec<DatasetInfo>, subject: Subject) -> (r: Self)
        ensures
            r.namespace_text() == namespace@,
            r.datasets() == Self::by_name(datasets@),
            r.subject() == subject,
    {
        let ghost all = datasets@;
        let mut map: NamedMap<DatasetInfo> = NamedMap::new();
        for ds in it: datasets
            invariant
                it.seq() == all,
                map.view() == Self::by_name(all.take(it.index())),
        {
            let ghost i = it.index();
            assert(all.take(i + 1).drop_last() =~= all.take(i));
            assert(all.take(i + 1).last() == ds);
            let name = ds.name.clone();
            map.insert(name, ds);
        }
        assert(all.take(all.len() as int) =~= all);
        ElanSchemaProvider { namespace, datasets: map, subject }
    }

    /// The names of the tables the user may see, each once.
    pub fn table_names<E: IamEngine>(&self, engine: &E) -> (r: Vec<String>)
        ensures
            forall|i: int, j: int| 0 <= i < j < r@.len() ==> (#[trigger] r@[i])@ != (#[trigger] r@[j])@,
            forall|i: int| 0 <= i < r@.len() ==> self.datasets().dom().contains((#[trigger] r@[i])@)
                && visible_to(*engine, self.subject(), self.namespace_text(), r@[i]@),
            forall|k: Seq<char>| #[trigger] self.datasets().dom().contains(k) && visible_to(*engine, self.subject(), self.namespace_text(), k)
                ==> exists|i: int| 0 <= i < r@.len() && (#[trigger] r@[i])@ == k,
    {
        let names = self.datasets.keys();
        let mut out: Vec<String> = Vec::new();
        let n = names.len();
        let mut i: usize = 0;
        while i < n
            invariant
                n == names@.len(),
                i <= n,
                forall|a: int, b: int| 0 <= a < b < names@.len() ==> (#[trigger] names@[a])@ != (#[trigger] names@[b])@,
                forall|a: int| 0 <= a < names@.len() ==> self.datasets().dom().contains((#[trigger] names@[a])@),
                forall|a: int| 0 <= a < out@.len() ==> exists|b: int| 0 <= b < i && (#[trigger] out@[a])@ == (#[trigger] names@[b])@,
                forall|a: int, b: int| 0 <= a < b < out@.len() ==> (#[trigger] out@[a])@ != (#[trigger] out@[b])@,
                forall|a: int| 0 <= a < out@.len() ==> self.datasets().dom().contains((#[trigger] out@[a])@)
                    && visible_to(*engine, self.subject(), self.namespace_text(), out@[a]@),
                forall|b: int| 0 <= b < i && visible_to(*engine, self.subject(), self.namespace_text(), (#[trigger] names@[b])@)
                    ==> exists|a: int| 0 <= a < out@.len() && (#[trigger] out@[a])@ == names@[b]@,
            decreases n - i,
        {
            let ghost prev = out@;
            if is_visible(engine, &self.subject, self.namespace.as_str(), names[i].as_str()) {
                out.push(names[i].clone());
                proof {
                    assert forall|a: int, b: int| 0 <= a < b < out@.len() implies (#[trigger] out@[a])@ != (#[trigger] out@[b])@ by {
                        if b == out@.len() - 1 {
                            assert(out@[a] == prev[a]);
                            let c = choose|c: int| 0 <= c < i && (#[trigger] prev[a])@ == (#[trigger] names@[c])@;
                        } else {
                            assert(out@[a] == prev[a] && out@[b] == prev[b]);
                        }
                    }
                    assert forall|a: int| 0 <= a < out@.len() implies exists|b: int| 0 <= b < i + 1 && (#[trigger] out@[a])@ == (#[trigger] names@[b])@ by {
                        if a == out@.len() - 1 {
                            assert(out@[a]@ == names@[i as int]@);
                        } else {
                            assert(out@[a] == prev[a]);
                            let c = choose|c: int| 0 <= c < i && (#[trigger] prev[a])@ == (#[trigger] names@[c])@;
                            assert(out@[a]@ == names@[c]@);
                        }
                    }
                    assert forall|b: int| 0 <= b < i + 1 && visible_to(*engine, self.subject(), self.namespace_text(), (#[trigger] names@[b])@)
                        implies exists|a: int| 0 <= a < out@.len() && (#[trigger] out@[a])@ == names@[b]@ by {
                        if b == i {
                            assert(out@[out@.len() - 1]@ == names@[b]@);
                        } else {
                            let a = choose|a: int| 0 <= a < prev.len() && (#[trigger] prev[a])@ == names@[b]@;
                            assert(out@[a] == prev[a]);
                        }
                    }
                }
            }
            i += 1;
        }
        out
    }

    /// Looks a table up: hidden where the user may not see it, the known
    /// dataset where there is one, else it must be fetched.
    pub fn table<'a, E: IamEngine>(&'a self, engine: &E, name: &str) -> (r: TableLookup<'a>)
        ensures
            !visible_to(*engine, self.subject(), self.namespace_text(), name@) ==> r is Hidden,
            visible_to(*engine, self.subject(), self.namespace_text(), name@) && self.datasets().dom().contains(name@)
                ==> (r matches TableLookup::Cached(d) && *d == self.datasets()[name@]),
            visible_to(*engine, self.subject(), self.namespace_text(), name@) && !self.datasets().dom().contains(name@)
                ==> r is Fetch,
    {
        if !is_visible(engine, &self.subject, self.namespace.as_str(), name) {
            return TableLookup::Hidden;
        }
        match self.datasets.get(name) {
            Some(d) => TableLookup::Cached(d),
            None => TableLookup::Fetch,
        }
    }

    /// Remembers a dataset fetched from the catalog service under `name`.
    pub fn insert_fetched(&mut self, name: String, ds: DatasetInfo)
        ensures
            final(self).datasets() == old(self).datasets().insert(name@, ds),
            final(self).namespace_text() == old(self).namespace_text(),
            final(self).subject() == old(self).subject(),
    {
        self.datasets.insert(name, ds);
    }

    /// Takes in the catalog service's answer to a lookup of table `name`:
    /// a dataset it describes is remembered under `name` and found; an
    /// unknown table is not found; a message that describes no dataset, or
    /// any other failure of the service, is an error.
    pub fn take_fetched(&mut self, name: &str, reply: Result<DatasetProto, GrpcStatus>) -> (r: Result<bool, FetchError>)
        ensures
            final(self).namespace_text() == old(self).namespace_text(),
            final(self).subject() == old(self).subject(),
            match reply {
                Ok(p) => match r {
                    Ok(found) => found && exists|d: DatasetInfo| dataset_decoded(p, d)
                        && final(self).datasets() == old(self).datasets().insert(name@, d),
                    Err(FetchError::Decode(e)) => dataset_rejected(p, e) && final(self).datasets() == old(self).datasets(),
                    Err(FetchError::Service(_)) => false,
                },
                Err(status) => final(self).datasets() == old(self).datasets() && if status.code == GrpcCode::NotFound {
                    r == Ok::<bool, FetchError>(false)
                } else {
                    r matches Err(FetchError::Service(s)) && s == status
                },
            },
    {
        match reply {
            Ok(p) => match dataset_from_proto(p) {
                Ok(d) => {
                    proof {
                        broadcast use vstd::string::group_string_axioms;
                    }
                    self.datasets.insert(name.to_string(), d);
                    Ok(true)
                },
                Err(e) => Err(FetchError::Decode(e)),
            },
            Err(status) => {
                if status.code == GrpcCode::NotFound {
                    Ok(false)
                } else {
                    Err(FetchError::Service(status))
                }
            },
        }
    }

    /// Whether the schema knows a table, whoever asks.
    pub fn table_exist(&self, name: &str) -> (r: bool)
        ensures
            r == self.datasets().dom().contains(name@),
    {
        self.datasets.contains_key(name)
    }
}

/// Why a table could not be fetched from the catalog service.
#[derive(Debug)]
pub enum FetchError {
    /// The service's message describes no dataset.
    Decode(ElanError),
    /// The service failed.
    Service(GrpcStatus),
}

/// The `elan` catalog: one schema per namespace.
#[derive(Debug)]
pub struct ElanCatalogProvider {
    schemas: NamedMap<ElanSchemaProvider>,
}

impl ElanCatalogProvider {
    /// The schemas, by namespace.
    pub closed spec fn schemas(&self) -> Map<Seq<char>, ElanSchemaProvider> {
        self.schemas.view()
    }

    /// A catalog holding `schemas`.
    pub fn new(schemas: NamedMap<ElanSchemaProvider>) -> (r: Self)
        ensures
            r.schemas() == schemas.view(),
    {
        ElanCatalogProvider { schemas }
    }

    /// The namespaces, each once.
    pub fn schema_names(&self) -> (r: Vec<String>)
        ensures
            forall|i: int, j: int| 0 <= i < j < r@.len() ==> (#[trigger] r@[i])@ != (#[trigger] r@[j])@,
            forall|i: int| 0 <= i < r@.len() ==> self.schemas().dom().contains((#[trigger] r@[i])@),
            forall|k: Seq<char>| #[trigger] self.schemas().dom().contains(k) ==> exists|i: int| 0 <= i < r@.len() && (#[trigger] r@[i])@ == k,
    {
        self.schemas.keys()
    }

    /// The schema of a namespace.
    pub fn schema(&self, name: &str) -> (r: Option<&ElanSchemaProvider>)
        ensures
            match r {
                Some(s) => self.schemas().dom().contains(name@) && *s == self.schemas()[name@],
                None => !self.schemas().dom().contains(name@),
            },
    {
        self.schemas.get(name)
    }

    /// Adds or replaces the schema of a namespace, handing back the one it replaces.
    pub fn register_schema(&mut self, name: String, schema: ElanSchemaProvider) -> (r: Option<ElanSchemaProvider>)
        ensures
            final(self).schemas() == old(self).schemas().insert(name@, schema),
            match r {
                Some(p) => old(self).schemas().dom().contains(name@) && p == old(self).schemas()[name@],
                None => !old(self).schemas().dom().contains(name@),
            },
    {
        self.schemas.insert(name, schema)
    }
}

/// How far a table takes over a filter.
#[derive(Debug, Clone, Copy, PartialEq, Eq, Structural)]
pub enum FilterPushDown {
    /// The table cannot apply the filter.
    Unsupported,
    /// The table applies the filter, but its result is filtered again.
    Inexact,
    /// The table applies the filter exactly.
    Exact,
}

/// A dataset as a queryable table, with its schema.
#[derive(Debug)]
pub struct ElanTableProvider {
    pub dataset: DatasetInfo,
    pub schema: Vec<FieldInfo>,
}

/// A projection names a column the schema does not have.
#[derive(Debug, Clone, Copy, PartialEq, Eq, Structural)]
pub struct ProjectionError {
    pub index: usize,
    pub field_count: usize,
}

/// The fields at the projected positions, in projection order.
pub open spec fn projected(fields: Seq<FieldInfo>, projection: Seq<usize>) -> Seq<FieldInfo> {
    projection.map_values(|i: usize| fields[i as int])
}

/// The fields a projection selects, or the first position that is out of range.
pub fn project(fields: &Vec<FieldInfo>, projection: &Vec<usize>) -> (r: Result<Vec<FieldInfo>, ProjectionError>)
    ensures
        match r {
            Ok(fs) => (forall|k: int| 0 <= k < projection@.len() ==> #[trigger] projection@[k] < fields@.len())
                && field_views(fs@) == field_views(projected(fields@, projection@)),
            Err(e) => e.field_count == fields@.len() && e.index >= fields@.len()
                && exists|k: int| 0 <= k < projection@.len() && #[trigger] projection@[k] == e.index
                    && forall|j: int| 0 <= j < k ==> #[trigger] projection@[j] < fields@.len(),
        },
{
    let mut out: Vec<FieldInfo> = Vec::new();
    let mut k: usize = 0;
    while k < projection.len()
        invariant
            k <= projection@.len(),
            out@.len() == k,
            forall|j: int| 0 <= j < k ==> #[trigger] projection@[j] < fields@.len(),
            forall|j: int| 0 <= j < k ==> field_views(out@)[j] == #[trigger] field_views(projected(fields@, projection@))[j],
        decreases projection@.len() - k,
    {
        let i = projection[k];
        if i >= fields.len() {
            return Err(ProjectionError { index: i, field_count: fields.len() });
        }
        let f = &fields[i];
        proof {
            broadcast use vstd::string::group_string_axioms;
        }
        out.push(FieldInfo { name: f.name.clone(), data_type: f.data_type.clone(), nullable: f.nullable });
        k += 1;
    }
    assert(field_views(out@) =~= field_views(projected(fields@, projection@)));
    Ok(out)
}

impl ElanTableProvider {
    /// The table of `dataset` with `schema`.
    pub fn new(dataset: DatasetInfo, schema: Vec<FieldInfo>) -> (r: Self)
        ensures
            r.dataset == dataset,
            r.schema == schema,
    {
        ElanTableProvider { dataset, schema }
    }

    /// The table of a catalog dataset: its schema is the one its stored
    /// bytes hold, or no field where they cannot be read.
    pub fn for_dataset(dataset: DatasetInfo) -> (r: Self)
        ensures
            r.dataset == dataset,
            is_placeholder_schema(dataset.schema_ipc@) ==> r.schema@.len() == 0,
            !is_placeholder_schema(dataset.schema_ipc@) ==> match ipc_schema(dataset.schema_ipc@) {
                Ok(fs) => field_views(r.schema@) == fs,
                Err(_) => r.schema@.len() == 0,
            },
    {
        let schema = schema_or_empty(decode_schema(dataset.schema_ipc.as_slice()));
        ElanTableProvider { dataset, schema }
    }

    /// The plan that reads the table: a scan of its dataset on the remote
    /// executor with the projected schema (the whole schema without a
    /// projection), the pushed filters and the row limit.
    pub fn scan(&self, projection: Option<&Vec<usize>>, filters: Vec<SqlExpr>, limit: Option<usize>) -> (r: Result<RemoteTableScanExec, ProjectionError>)
        ensures
            projection is None ==> (r matches Ok(s) && field_views(s.schema@) == field_views(self.schema@)),
            projection matches Some(p) ==> ((r is Ok) <==> forall|k: int| 0 <= k < p@.len() ==> #[trigger] p@[k] < self.schema@.len()),
            projection matches Some(p) ==> (r matches Ok(s) ==> field_views(s.schema@) == field_views(projected(self.schema@, p@))),
            r matches Err(e) ==> e.field_count == self.schema@.len() && e.index >= self.schema@.len(),
            r matches Ok(s) ==> same_dataset(s.dataset, self.dataset) && s.pushed_filters == filters && s.limit == limit,
    {
        let schema = match projection {
            Some(p) => match project(&self.schema, p) {
                Ok(fs) => fs,
                Err(e) => return Err(e),
            },
            None => {
                let mut fs: Vec<FieldInfo> = Vec::new();
                let mut i: usize = 0;
                while i < self.schema.len()
                    invariant
                        i <= self.schema@.len(),
                        fs@.len() == i,
                        forall|j: int| 0 <= j < i ==> field_views(fs@)[j] == #[trigger] field_views(self.schema@)[j],
                    decreases self.schema@.len() - i,
                {
                    let f = &self.schema[i];
                    proof {
                        broadcast use vstd::string::group_string_axioms;
                    }
                    fs.push(FieldInfo { name: f.name.clone(), data_type: f.data_type.clone(), nullable: f.nullable });
                    i += 1;
                }
                assert(field_views(fs@) =~= field_views(self.schema@));
                fs
            },
        };
        Ok(RemoteTableScanExec::new(self.dataset.duplicate(), schema, filters, limit))
    }

    /// Which of `count` filters the table takes over: every one inexactly,
    /// so that they are applied again to what the executor returns (the
    /// executor may not support every predicate).
    pub fn supports_filters_pushdown(&self, count: usize) -> (r: Vec<FilterPushDown>)
        ensures
            r@.len() == count,
            forall|i: int| 0 <= i < count ==> #[trigger] r@[i] == FilterPushDown::Inexact,
    {
        let mut out: Vec<FilterPushDown> = Vec::new();
        let mut i: usize = 0;
        while i < count
            invariant
                i <= count,
                out@.len() == i,
                forall|k: int| 0 <= k < i ==> #[trigger] out@[k] == FilterPushDown::Inexact,
            decreases count - i,
        {
            out.push(FilterPushDown::Inexact);
            i += 1;
        }
        out
    }
}

} // verus!
