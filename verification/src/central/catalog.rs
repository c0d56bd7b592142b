//! The catalog store's row mapping and the catalog service's search.

use vstd::prelude::*;
use crate::common::catalog::{DatasetInfo, SourceType, source_type_named};
use crate::ids::{parse_uuid, uuid_parse};
use crate::json::{compact_json, json_compact};
use crate::text::{ascii_lower_text, ascii_text, contains_seq, str_contains};

verus! {

/// A dataset row as the catalog store reads it.
#[derive(Debug, Clone)]
pub struct DatasetRow {
    pub id: String,
    pub name: String,
    pub namespace: String,
    pub source_type: String,
    pub coordinator_id: String,
    pub executor_endpoint: String,
    pub arrow_schema_ipc: Vec<u8>,
    pub metadata_json: Option<String>,
}

/// The dataset a row holds, its fields copied over.
pub open spec fn dataset_of_row(row: DatasetRow, d: DatasetInfo, id: u128, t: SourceType, metadata: Seq<char>) -> bool {
    &&& d.id == id
    &&& d.name == row.name
    &&& d.namespace == row.namespace
    &&& d.source_type == t
    &&& d.coordinator_id == row.coordinator_id
    &&& d.executor_endpoint == row.executor_endpoint
    &&& d.schema_ipc == row.arrow_schema_ipc
    &&& d.metadata@ == metadata
}

/// The dataset a stored row describes. Its id must parse as a UUID, its
/// source type must be known and its metadata, where present, must be JSON,
/// checked in that order; the error is the failing check's message. Absent
/// metadata is JSON `null`.
pub fn row_to_dataset(row: DatasetRow) -> (r: Result<DatasetInfo, String>)
    ensures
        match uuid_parse(row.id@) {
            Err(m) => r matches Err(e) && e@ == m,
            Ok(id) => match source_type_named(row.source_type@) {
                None => r matches Err(e) && e@ == "config error: "@ + "unknown source type: "@ + row.source_type@,
                Some(t) => match row.metadata_json {
                    Some(text) => match json_compact(text@) {
                        Err(m) => r matches Err(e) && e@ == m,
                        Ok(c) => r matches Ok(d) && dataset_of_row(row, d, id, t, c),
                    },
                    None => r matches Ok(d) && dataset_of_row(row, d, id, t, "null"@),
                },
            },
        },
{
    let id = match parse_uuid(row.id.as_str()) {
        Ok(id) => id,
        Err(e) => return Err(e),
    };
    let source_type = match SourceType::try_from(row.source_type.as_str()) {
        Ok(t) => t,
        Err(e) => {
            let msg = e.to_string();
            assert(msg@ =~= "config error: "@ + "unknown source type: "@ + row.source_type@);
            return Err(msg);
        },
    };
    let metadata = match &row.metadata_json {
        Some(text) => match compact_json(text.as_str()) {
            Ok(c) => c,
            Err(e) => return Err(e),
        },
        None => {
            proof {
                broadcast use vstd::string::group_string_axioms;
            }
            "null".to_string()
        },
    };
    Ok(DatasetInfo {
        id,
        name: row.name,
        namespace: row.namespace,
        source_type,
        coordinator_id: row.coordinator_id,
        executor_endpoint: row.executor_endpoint,
        schema_ipc: row.arrow_schema_ipc,
        metadata,
    })
}

/// What `str::to_lowercase` yields for a text (Unicode lower case).
pub uninterp spec fn lowercase(s: Seq<char>) -> Seq<char>;

/// `str::to_lowercase`. The contract names the result and claims that the
/// lower case of ASCII text is its ASCII lower case.
#[verifier::external_body]
pub(crate) fn to_lowercase(s: &str) -> (r: String)
    ensures
        r@ == lowercase(s@),
        ascii_text(s@) ==> r@ == ascii_lower_text(s@),
{
    s.to_lowercase()
}

/// A dataset matches a search when the lower-cased query occurs in its
/// lower-cased name or namespace.
pub open spec fn search_matches(d: DatasetInfo, query: Seq<char>) -> bool {
    contains_seq(lowercase(d.name@), lowercase(query)) || contains_seq(lowercase(d.namespace@), lowercase(query))
}

/// The datasets of a list that match a search, in their order.
pub open spec fn search_results(all: Seq<DatasetInfo>, query: Seq<char>) -> Seq<DatasetInfo>
    decreases all.len(),
{
    if all.len() == 0 {
        Seq::empty()
    } else {
        let rest = search_results(all.drop_last(), query);
        if search_matches(all.last(), query) {
            rest.push(all.last())
        } else {
            rest
        }
    }
}

/// Where the query and every name and namespace are ASCII: a dataset
/// matches when the query in ASCII lower case occurs in its name or
/// namespace in ASCII lower case.
pub open spec fn ascii_search_matches(d: DatasetInfo, query: Seq<char>) -> bool {
    contains_seq(ascii_lower_text(d.name@), ascii_lower_text(query))
        || contains_seq(ascii_lower_text(d.namespace@), ascii_lower_text(query))
}

/// The datasets of a list that match a search by ASCII case, in their order.
pub open spec fn ascii_search_results(all: Seq<DatasetInfo>, query: Seq<char>) -> Seq<DatasetInfo>
    decreases all.len(),
{
    if all.len() == 0 {
        Seq::empty()
    } else {
        let rest = ascii_search_results(all.drop_last(), query);
        if ascii_search_matches(all.last(), query) {
            rest.push(all.last())
        } else {
            rest
        }
    }
}

/// Every name and namespace of the datasets is ASCII.
pub open spec fn ascii_datasets(all: Seq<DatasetInfo>) -> bool {
    forall|i: int| 0 <= i < all.len() ==> ascii_text((#[trigger] all[i]).name@) && ascii_text(all[i].namespace@)
}

/// The empty text occurs in every text.
proof fn lemma_empty_occurs(hay: Seq<char>)
    ensures
        contains_seq(hay, Seq::<char>::empty()),
{
    let e = Seq::<char>::empty();
    assert(hay.subrange(0int, 0int + e.len()) =~= e);
}

/// Keeps the datasets whose name or namespace contains the query, ignoring
/// case. An empty query keeps every dataset; where the query and the
/// datasets' names and namespaces are ASCII, case is ASCII case.
pub fn search_datasets(all: Vec<DatasetInfo>, query: &str) -> (r: Vec<DatasetInfo>)
    ensures
        r@ == search_results(all@, query@),
        query@.len() == 0 ==> r@ == all@,
        ascii_text(query@) && ascii_datasets(all@) ==> r@ == ascii_search_results(all@, query@),
{
    let q = to_lowercase(query);
    proof {
        if query@.len() == 0 {
            assert(ascii_text(query@));
            assert(q@ =~= Seq::<char>::empty());
        }
    }
    let ghost items = all@;
    let mut out: Vec<DatasetInfo> = Vec::new();
    for d in it: all
        invariant
            it.seq() == items,
            q@ == lowercase(query@),
            ascii_text(query@) ==> q@ == ascii_lower_text(query@),
            query@.len() == 0 ==> q@.len() == 0,
            out@ == search_results(items.take(it.index()), query@),
            query@.len() == 0 ==> out@ == items.take(it.index()),
            ascii_text(query@) && ascii_datasets(items) ==> out@ == ascii_search_results(items.take(it.index()), query@),
    {
        let ghost i = it.index();
        assert(items.take(i + 1).drop_last() =~= items.take(i));
        assert(items.take(i + 1).last() == d);
        assert(items[i] == d);
        let name = to_lowercase(d.name.as_str());
        let ns = to_lowercase(d.namespace.as_str());
        proof {
            if query@.len() == 0 {
                assert(q@ =~= Seq::<char>::empty());
                lemma_empty_occurs(name@);
            }
        }
        if str_contains(name.as_str(), q.as_str()) || str_contains(ns.as_str(), q.as_str()) {
            out.push(d);
        }
        proof {
            if query@.len() == 0 {
                assert(out@ =~= items.take(i + 1));
            }
        }
    }
    assert(items.take(items.len() as int) =~= items);
    out
}

} // verus!
