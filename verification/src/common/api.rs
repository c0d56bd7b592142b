//! HTTP API request/response shapes for elan-query's public REST endpoints.

use vstd::prelude::*;

verus! {

/// Body for `POST /api/v1/query`.
#[derive(Debug, Clone)]
pub struct QueryRequest {
    pub sql: String,
    pub session_id: Option<String>,
}

/// Successful response from `POST /api/v1/query`. `query_id` is the query's
/// UUID as a 128-bit value; every cell is SQL NULL or the text of a value.
#[derive(Debug, Clone)]
pub struct QueryResponse {
    pub query_id: u128,
    pub columns: Vec<String>,
    pub rows: Vec<Vec<Option<String>>>,
    pub duration_ms: u64,
}

/// Error body returned on non-2xx responses.
#[derive(Debug, Clone)]
pub struct ErrorResponse {
    pub error: String,
    pub detail: Option<String>,
}

/// Response from `GET /api/v1/catalog`.
#[derive(Debug, Clone)]
pub struct CatalogResponse {
    pub namespaces: Vec<NamespaceInfo>,
}

/// A namespace and its visible datasets within the catalog response.
#[derive(Debug, Clone)]
pub struct NamespaceInfo {
    pub name: String,
    pub datasets: Vec<DatasetSummary>,
}

/// Lightweight dataset descriptor used in catalog listings.
#[derive(Debug, Clone)]
pub struct DatasetSummary {
    pub name: String,
    pub source_type: String,
    pub coordinator_id: String,
}

/// Response body for all `GET /health` endpoints.
#[derive(Debug, Clone)]
pub struct HealthResponse {
    pub status: String,
}

impl HealthResponse {
    /// The healthy answer, status `ok`.
    pub fn ok() -> (r: HealthResponse)
        ensures
            r.status@ == "ok"@,
    {
        proof {
            broadcast use vstd::string::group_string_axioms;
        }
        HealthResponse { status: "ok".to_string() }
    }
}

/// The HTTP status of a server-side failure.
pub const INTERNAL_SERVER_ERROR: u16 = 500;

/// A server-side failure: status 500 with the error and its detail.
pub fn server_error(error: &str, detail: &str) -> (r: (u16, ErrorResponse))
    ensures
        r.0 == 500,
        r.1.error@ == error@,
        r.1.detail matches Some(d) && d@ == detail@,
{
    proof {
        broadcast use vstd::string::group_string_axioms;
    }
    (INTERNAL_SERVER_ERROR, ErrorResponse { error: error.to_string(), detail: Some(detail.to_string()) })
}

} // verus!
