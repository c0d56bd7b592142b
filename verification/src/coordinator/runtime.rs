//! The coordinator at run time: which schema probe each dataset gets, the
//! heartbeat it keeps with elan-central, and its answer to executors'
//! access checks.

use vstd::prelude::*;
use crate::coordinator::config::DatasetConfig;
use crate::ids::utc_now;

verus! {

/// How a dataset's Arrow schema is found at registration.
#[derive(Debug, Clone)]
pub enum SchemaProbe {
    /// Read the CSV file's header and rows.
    Csv { path: String, has_header: bool, delimiter: u8 },
    /// Read the Parquet file's footer.
    Parquet { path: String },
    /// No inference: the one-column placeholder schema.
    Placeholder,
}

/// The probe for a dataset: CSV and Parquet files are read (the delimiter
/// taken as the low byte of its character), other sources get the
/// placeholder schema. A probe that fails falls back to the placeholder too.
pub fn schema_probe(cfg: &DatasetConfig) -> (r: SchemaProbe)
    ensures
        match *cfg {
            DatasetConfig::Csv { path, has_header, delimiter, .. } => r matches SchemaProbe::Csv { path: p, has_header: h, delimiter: d }
                && p == path && h == has_header && d as int == (delimiter as int) % 256,
            DatasetConfig::Parquet { path, .. } => r matches SchemaProbe::Parquet { path: p } && p == path,
            _ => r is Placeholder,
        },
{
    match cfg {
        DatasetConfig::Csv { path, has_header, delimiter, .. } => {
            let code = *delimiter as u32;
            let d = (code % 256) as u8;
            SchemaProbe::Csv { path: path.clone(), has_header: *has_header, delimiter: d }
        },
        DatasetConfig::Parquet { path, .. } => SchemaProbe::Parquet { path: path.clone() },
        _ => SchemaProbe::Placeholder,
    }
}

/// Seconds between two heartbeats.
pub const HEARTBEAT_INTERVAL_SECS: u64 = 15;

/// Seconds to wait before opening a new heartbeat stream after one failed.
pub const HEARTBEAT_RETRY_SECS: u64 = 30;

/// A heartbeat: who sends it, and when (whole seconds since the Unix epoch;
/// the nanoseconds are sent as zero).
#[derive(Debug, Clone)]
pub struct HeartbeatRequest {
    pub coordinator_id: String,
    pub sent_at_seconds: i64,
}

/// A heartbeat of `coordinator_id`, stamped with the current time.
pub fn heartbeat_request(coordinator_id: &str) -> (r: HeartbeatRequest)
    ensures
        r.coordinator_id@ == coordinator_id@,
{
    proof {
        broadcast use vstd::string::group_string_axioms;
    }
    let (seconds, _) = utc_now();
    HeartbeatRequest { coordinator_id: coordinator_id.to_string(), sent_at_seconds: seconds }
}

/// What the coordinator does on a reply of the heartbeat stream.
#[derive(Debug, Clone, PartialEq, Eq)]
pub enum HeartbeatStep {
    /// The central service holds the coordinator alive: go on.
    Continue,
    /// The central service holds the coordinator dead: warn and go on.
    WarnNotAlive,
    /// The stream failed: close it with this error and retry later.
    Stop(String),
}

/// The step after a reply: the reply's `alive` flag, or the stream's error.
pub fn on_heartbeat_reply(reply: Result<bool, String>) -> (r: HeartbeatStep)
    ensures
        match reply {
            Ok(true) => r is Continue,
            Ok(false) => r is WarnNotAlive,
            Err(e) => r matches HeartbeatStep::Stop(m) && m == e,
        },
{
    match reply {
        Ok(true) => HeartbeatStep::Continue,
        Ok(false) => HeartbeatStep::WarnNotAlive,
        Err(e) => HeartbeatStep::Stop(e),
    }
}

/// The answer to an executor asking whether a caller may read a dataset.
#[derive(Debug, Clone)]
pub struct AuthCheckResponse {
    pub allowed: bool,
    pub reason: String,
}

/// Answers an access check. The coordinator allows every access; the
/// central IAM engine is where access is decided.
pub fn auth_check(dataset: &str, caller: &str) -> (r: AuthCheckResponse)
    ensures
        r.allowed,
        r.reason@ == "PoC: all access allowed by coordinator"@,
{
    proof {
        broadcast use vstd::string::group_string_axioms;
    }
    AuthCheckResponse { allowed: true, reason: "PoC: all access allowed by coordinator".to_string() }
}

} // verus!
