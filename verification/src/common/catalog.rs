//! Core catalog types describing datasets and coordinators.

use vstd::prelude::*;
use crate::common::error::ElanError;
use crate::text::str_eq;

verus! {

/// The underlying data format / engine backing a dataset.
#[derive(Debug, Clone, Copy, PartialEq, Eq, Structural)]
pub enum SourceType {
    Parquet,
    Csv,
    Postgres,
    Delta,
}

/// The name a source type is written as.
pub open spec fn source_type_name(t: SourceType) -> Seq<char> {
    match t {
        SourceType::Parquet => "parquet"@,
        SourceType::Csv => "csv"@,
        SourceType::Postgres => "postgres"@,
        SourceType::Delta => "delta"@,
    }
}

/// The source type a name denotes, if any.
pub open spec fn source_type_named(s: Seq<char>) -> Option<SourceType> {
    if s == "parquet"@ {
        Some(SourceType::Parquet)
    } else if s == "csv"@ {
        Some(SourceType::Csv)
    } else if s == "postgres"@ {
        Some(SourceType::Postgres)
    } else if s == "delta"@ {
        Some(SourceType::Delta)
    } else {
        None
    }
}

impl SourceType {
    /// The name the source type is written as.
    pub fn as_str(&self) -> (r: &'static str)
        ensures
            r@ == source_type_name(*self),
    {
        match self {
            SourceType::Parquet => "parquet",
            SourceType::Csv => "csv",
            SourceType::Postgres => "postgres",
            SourceType::Delta => "delta",
        }
    }

    /// The name the source type is written as, as a new string.
    pub fn to_string(&self) -> (r: String)
        ensures
            r@ == source_type_name(*self),
    {
        proof {
            broadcast use vstd::string::group_string_axioms;
        }
        self.as_str().to_string()
    }

    /// Parses a source type name; an unknown name is a configuration error.
    pub fn try_from(s: &str) -> (r: Result<SourceType, ElanError>)
        ensures
            match source_type_named(s@) {
                Some(t) => r == Ok::<SourceType, ElanError>(t),
                None => r matches Err(ElanError::Config(msg)) && msg@ == "unknown source type: "@ + s@,
            },
    {
        if str_eq(s, "parquet") {
            Ok(SourceType::Parquet)
        } else if str_eq(s, "csv") {
            Ok(SourceType::Csv)
        } else if str_eq(s, "postgres") {
            Ok(SourceType::Postgres)
        } else if str_eq(s, "delta") {
            Ok(SourceType::Delta)
        } else {
            let mut msg = String::new();
            msg.append("unknown source type: ");
            msg.append(s);
            Err(ElanError::Config(msg))
        }
    }
}

/// Writing a source type's name and parsing it back gives the source type again.
pub proof fn law_source_type_round_trip(t: SourceType)
    ensures
        source_type_named(source_type_name(t)) == Some(t),
{
    reveal_strlit("parquet");
    reveal_strlit("csv");
    reveal_strlit("postgres");
    reveal_strlit("delta");
    assert("parquet"@.len() == 7 && "csv"@.len() == 3 && "postgres"@.len() == 8 && "delta"@.len() == 5);
    assert("parquet"@[0] != "postgres"@[1]);
    assert("parquet"@ != "postgres"@);
}

/// Full metadata for a registered dataset. `id` is the dataset's UUID as a
/// 128-bit value; `schema_ipc` its Arrow schema in IPC stream format;
/// `metadata` the compact JSON text of its source metadata.
#[derive(Debug, Clone)]
pub struct DatasetInfo {
    pub id: u128,
    pub name: String,
    pub namespace: String,
    pub source_type: SourceType,
    pub coordinator_id: String,
    pub executor_endpoint: String,
    pub schema_ipc: Vec<u8>,
    pub metadata: String,
}

/// Two datasets hold the same values.
pub open spec fn same_dataset(a: DatasetInfo, b: DatasetInfo) -> bool {
    &&& a.id == b.id
    &&& a.name@ == b.name@
    &&& a.namespace@ == b.namespace@
    &&& a.source_type == b.source_type
    &&& a.coordinator_id@ == b.coordinator_id@
    &&& a.executor_endpoint@ == b.executor_endpoint@
    &&& a.schema_ipc@ == b.schema_ipc@
    &&& a.metadata@ == b.metadata@
}

impl DatasetInfo {
    /// A copy of the dataset.
    pub fn duplicate(&self) -> (r: DatasetInfo)
        ensures
            same_dataset(r, *self),
    {
        let schema_ipc = self.schema_ipc.clone();
        assert(schema_ipc@ =~= self.schema_ipc@);
        DatasetInfo {
            id: self.id,
            name: self.name.clone(),
            namespace: self.namespace.clone(),
            source_type: self.source_type,
            coordinator_id: self.coordinator_id.clone(),
            executor_endpoint: self.executor_endpoint.clone(),
            schema_ipc,
            metadata: self.metadata.clone(),
        }
    }
}

/// Runtime state of a registered coordinator.
#[derive(Debug, Clone)]
pub struct CoordinatorInfo {
    pub id: String,
    pub environment: String,
    pub hostname: String,
    pub executor_endpoint: String,
    pub is_alive: bool,
}

} // verus!
