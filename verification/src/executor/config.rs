//! Configuration of elan-executor.

use vstd::prelude::*;

verus! {

/// Connection details of the S3-compatible object store datasets are read from.
#[derive(Debug, Clone)]
pub struct ObjectStoreConfig {
    pub endpoint: String,
    pub access_key: String,
    pub secret_key: String,
    pub bucket: String,
    pub allow_http: bool,
}

/// Top-level executor configuration.
#[derive(Debug, Clone)]
pub struct ExecutorConfig {
    pub bind_host: String,
    pub bind_port: u16,
    pub coordinator_url: String,
    pub datasets: Vec<DatasetMount>,
    pub object_store: Option<ObjectStoreConfig>,
}

impl ExecutorConfig {
    /// The settings used without a configuration file: bind `0.0.0.0:50055`,
    /// coordinator at `http://localhost:8081`, no datasets, no object store.
    pub fn default() -> (r: ExecutorConfig)
        ensures
            r.bind_host@ == "0.0.0.0"@,
            r.bind_port == 50055,
            r.coordinator_url@ == "http://localhost:8081"@,
            r.datasets@.len() == 0,
            r.object_store is None,
    {
        proof {
            broadcast use vstd::string::group_string_axioms;
        }
        ExecutorConfig {
            bind_host: "0.0.0.0".to_string(),
            bind_port: 50055,
            coordinator_url: "http://localhost:8081".to_string(),
            datasets: Vec::new(),
            object_store: None,
        }
    }

    /// The port of the HTTP SQL service: the one after the bind port.
    pub fn sql_service_port(&self) -> (r: u16)
        requires
            self.bind_port < 65535,
        ensures
            r == self.bind_port + 1,
    {
        self.bind_port + 1
    }
}

/// A dataset file the executor serves under a table name.
#[derive(Debug, Clone)]
pub enum DatasetMount {
    Parquet { table_name: String, path: String },
    Csv { table_name: String, path: String, has_header: bool },
}

/// Whether a CSV file has a header row when not configured: it has.
pub fn default_true() -> (r: bool)
    ensures
        r,
{
    true
}

/// The table name a mount is served under.
pub open spec fn mount_table_name(m: DatasetMount) -> String {
    match m {
        DatasetMount::Parquet { table_name, .. } => table_name,
        DatasetMount::Csv { table_name, .. } => table_name,
    }
}

impl DatasetMount {
    /// The table name the dataset is served under.
    pub fn table_name(&self) -> (r: &str)
        ensures
            r@ == mount_table_name(*self)@,
    {
        match self {
            DatasetMount::Parquet { table_name, .. } => table_name.as_str(),
            DatasetMount::Csv { table_name, .. } => table_name.as_str(),
        }
    }
}

} // verus!
