//! Configuration types of elan-coordinator.

use vstd::prelude::*;

verus! {

/// Top-level coordinator configuration.
#[derive(Debug, Clone)]
pub struct CoordinatorConfig {
    pub coordinator: CoordinatorMeta,
    pub central: CentralConfig,
    pub executor: ExecutorConfig,
    pub http: HttpConfig,
    pub datasets: Vec<DatasetConfig>,
    pub object_store: Option<ObjectStoreConfig>,
}

/// Identity fields sent to elan-central on registration.
#[derive(Debug, Clone)]
pub struct CoordinatorMeta {
    pub id: String,
    pub environment: String,
    pub hostname: String,
}

/// gRPC endpoint for elan-central.
#[derive(Debug, Clone)]
pub struct CentralConfig {
    pub endpoint: String,
}

/// HTTP endpoint of the co-located elan-executor, advertised to elan-central.
#[derive(Debug, Clone)]
pub struct ExecutorConfig {
    pub endpoint: String,
}

/// Coordinator's own HTTP server configuration.
#[derive(Debug, Clone)]
pub struct HttpConfig {
    pub addr: String,
}

/// Connection details of the S3-compatible object store datasets are uploaded to.
#[derive(Debug, Clone)]
pub struct ObjectStoreConfig {
    pub endpoint: String,
    pub access_key: String,
    pub secret_key: String,
    pub bucket: String,
    pub allow_http: bool,
}

/// The HTTP address used when none is configured: `0.0.0.0:8081`.
pub fn default_http_addr() -> (r: String)
    ensures
        r@ == "0.0.0.0:8081"@,
{
    proof {
        broadcast use vstd::string::group_string_axioms;
    }
    "0.0.0.0:8081".to_string()
}

/// The CSV delimiter used when none is configured: a comma.
pub fn default_delimiter() -> (r: char)
    ensures
        r == ',',
{
    ','
}

/// Whether a CSV file has a header row when not configured: it has.
pub fn default_true() -> (r: bool)
    ensures
        r,
{
    true
}

/// The Postgres port used when none is configured: 5432.
pub fn default_pg_port() -> (r: u16)
    ensures
        r == 5432,
{
    5432
}

/// Descriptor for a single dataset this coordinator should register.
#[derive(Debug, Clone)]
pub enum DatasetConfig {
    Parquet { name: String, namespace: String, path: String, description: Option<String> },
    Csv { name: String, namespace: String, path: String, delimiter: char, has_header: bool },
    Postgres {
        name: String,
        namespace: String,
        host: String,
        port: u16,
        database: String,
        schema: String,
        table: String,
        username: String,
        password: String,
    },
    Delta { name: String, namespace: String, path: String },
}

/// A value in a dataset's metadata: a string, a flag or a port number.
#[derive(Debug, Clone)]
pub enum MetadataValue {
    Text(String),
    Flag(bool),
    Number(u16),
}

/// The view of a metadata value.
pub enum MetadataView {
    Text(Seq<char>),
    Flag(bool),
    Number(u16),
}

impl View for MetadataValue {
    type V = MetadataView;

    open spec fn view(&self) -> MetadataView {
        match self {
            MetadataValue::Text(s) => MetadataView::Text(s@),
            MetadataValue::Flag(b) => MetadataView::Flag(*b),
            MetadataValue::Number(n) => MetadataView::Number(*n),
        }
    }
}

/// The view of a list of metadata entries.
pub open spec fn entries_view(s: Seq<(String, MetadataValue)>) -> Seq<(Seq<char>, MetadataView)> {
    s.map_values(|e: (String, MetadataValue)| (e.0@, e.1@))
}

/// The dataset's name.
pub open spec fn config_name(d: DatasetConfig) -> String {
    match d {
        DatasetConfig::Parquet { name, .. } => name,
        DatasetConfig::Csv { name, .. } => name,
        DatasetConfig::Postgres { name, .. } => name,
        DatasetConfig::Delta { name, .. } => name,
    }
}

/// The dataset's namespace.
pub open spec fn config_namespace(d: DatasetConfig) -> String {
    match d {
        DatasetConfig::Parquet { namespace, .. } => namespace,
        DatasetConfig::Csv { namespace, .. } => namespace,
        DatasetConfig::Postgres { namespace, .. } => namespace,
        DatasetConfig::Delta { namespace, .. } => namespace,
    }
}

/// The name of the dataset's source type.
pub open spec fn config_source_type(d: DatasetConfig) -> Seq<char> {
    match d {
        DatasetConfig::Parquet { .. } => "parquet"@,
        DatasetConfig::Csv { .. } => "csv"@,
        DatasetConfig::Postgres { .. } => "postgres"@,
        DatasetConfig::Delta { .. } => "delta"@,
    }
}

/// The metadata registered for a dataset: the file path of file datasets
/// (with delimiter and header flag for CSV), the connection details but not
/// the password of Postgres tables.
pub open spec fn config_metadata(d: DatasetConfig) -> Seq<(Seq<char>, MetadataView)> {
    match d {
        DatasetConfig::Parquet { path, .. } => seq![("path"@, MetadataView::Text(path@))],
        DatasetConfig::Csv { path, delimiter, has_header, .. } => seq![
            ("path"@, MetadataView::Text(path@)),
            ("delimiter"@, MetadataView::Text(seq![delimiter])),
            ("has_header"@, MetadataView::Flag(has_header)),
        ],
        DatasetConfig::Postgres { host, port, database, schema, table, username, .. } => seq![
            ("host"@, MetadataView::Text(host@)),
            ("port"@, MetadataView::Number(port)),
            ("database"@, MetadataView::Text(database@)),
            ("schema"@, MetadataView::Text(schema@)),
            ("table"@, MetadataView::Text(table@)),
            ("username"@, MetadataView::Text(username@)),
        ],
        DatasetConfig::Delta { path, .. } => seq![("path"@, MetadataView::Text(path@))],
    }
}

/// The registered metadata of every file dataset (Parquet, CSV, Delta)
/// holds its path; that of a Postgres table never holds its password.
pub proof fn law_file_metadata_holds_path(d: DatasetConfig)
    ensures
        match d {
            DatasetConfig::Parquet { path, .. } => config_metadata(d).contains(("path"@, MetadataView::Text(path@))),
            DatasetConfig::Csv { path, .. } => config_metadata(d).contains(("path"@, MetadataView::Text(path@))),
            DatasetConfig::Delta { path, .. } => config_metadata(d).contains(("path"@, MetadataView::Text(path@))),
            DatasetConfig::Postgres { .. } => forall|i: int| 0 <= i < config_metadata(d).len()
                ==> (#[trigger] config_metadata(d)[i]).0 != "password"@,
        },
{
    let m = config_metadata(d);
    match d {
        DatasetConfig::Postgres { .. } => {
            reveal_strlit("password");
            reveal_strlit("host");
            reveal_strlit("port");
            reveal_strlit("database");
            reveal_strlit("schema");
            reveal_strlit("table");
            reveal_strlit("username");
            assert forall|i: int| 0 <= i < m.len() implies (#[trigger] m[i]).0 != "password"@ by {
                assert(m[i].0.len() != "password"@.len() || m[i].0[0] != "password"@[0]);
            }
        },
        _ => {
            assert(m[0] == ("path"@, MetadataView::Text(match d {
                DatasetConfig::Parquet { path, .. } => path@,
                DatasetConfig::Csv { path, .. } => path@,
                DatasetConfig::Delta { path, .. } => path@,
                DatasetConfig::Postgres { host, .. } => host@,
            })));
        },
    }
}

fn text_entry(key: &str, value: &String) -> (r: (String, MetadataValue))
    ensures
        r.0@ == key@,
        r.1@ == MetadataView::Text(value@),
{
    proof {
        broadcast use vstd::string::group_string_axioms;
    }
    (key.to_string(), MetadataValue::Text(value.clone()))
}

impl DatasetConfig {
    /// The dataset's name.
    pub fn name(&self) -> (r: &str)
        ensures
            r@ == config_name(*self)@,
    {
        match self {
            DatasetConfig::Parquet { name, .. } => name.as_str(),
            DatasetConfig::Csv { name, .. } => name.as_str(),
            DatasetConfig::Postgres { name, .. } => name.as_str(),
            DatasetConfig::Delta { name, .. } => name.as_str(),
        }
    }

    /// The dataset's namespace.
    pub fn namespace(&self) -> (r: &str)
        ensures
            r@ == config_namespace(*self)@,
    {
        match self {
            DatasetConfig::Parquet { namespace, .. } => namespace.as_str(),
            DatasetConfig::Csv { namespace, .. } => namespace.as_str(),
            DatasetConfig::Postgres { namespace, .. } => namespace.as_str(),
            DatasetConfig::Delta { namespace, .. } => namespace.as_str(),
        }
    }

    /// The name of the dataset's source type.
    pub fn source_type(&self) -> (r: &str)
        ensures
            r@ == config_source_type(*self),
    {
        match self {
            DatasetConfig::Parquet { .. } => "parquet",
            DatasetConfig::Csv { .. } => "csv",
            DatasetConfig::Postgres { .. } => "postgres",
            DatasetConfig::Delta { .. } => "delta",
        }
    }

    /// The metadata registered for the dataset, as the entries of a JSON object.
    pub fn metadata_json(&self) -> (r: Vec<(String, MetadataValue)>)
        ensures
            entries_view(r@) == config_metadata(*self),
    {
        proof {
            broadcast use vstd::string::group_string_axioms;
        }
        let mut r: Vec<(String, MetadataValue)> = Vec::new();
        match self {
            DatasetConfig::Parquet { path, .. } => {
                r.push(text_entry("path", path));
            },
            DatasetConfig::Csv { path, delimiter, has_header, .. } => {
                r.push(text_entry("path", path));
                let mut d = String::new();
                crate::text::push_char(&mut d, *delimiter);
                r.push(("delimiter".to_string(), MetadataValue::Text(d)));
                r.push(("has_header".to_string(), MetadataValue::Flag(*has_header)));
            },
            DatasetConfig::Postgres { host, port, database, schema, table, username, .. } => {
                r.push(text_entry("host", host));
                r.push(("port".to_string(), MetadataValue::Number(*port)));
                r.push(text_entry("database", database));
                r.push(text_entry("schema", schema));
                r.push(text_entry("table", table));
                r.push(text_entry("username", username));
            },
            DatasetConfig::Delta { path, .. } => {
                r.push(text_entry("path", path));
            },
        }
        assert(entries_view(r@) =~= config_metadata(*self));
        r
    }
}

} // verus!
