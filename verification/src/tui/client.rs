//! What the terminal client sends to the query service, and how it shows
//! an event of the central audit stream.

use vstd::prelude::*;
use crate::common::api::QueryRequest;
use crate::common::proto::AuditEventProto;

verus! {

/// Where and as whom the terminal client talks to the query service.
#[derive(Debug, Clone)]
pub struct QueryClient {
    pub base_url: String,
    pub username: String,
}

impl QueryClient {
    /// A client of the query service at `base_url`, acting for `username`.
    pub fn new(base_url: String, username: String) -> (r: Self)
        ensures
            r.base_url == base_url,
            r.username == username,
    {
        QueryClient { base_url, username }
    }

    /// The URL that queries are posted to.
    pub fn query_url(&self) -> (r: String)
        ensures
            r@ == self.base_url@ + "/api/v1/query"@,
    {
        let mut u = self.base_url.clone();
        u.append("/api/v1/query");
        u
    }

    /// The URL of the catalog.
    pub fn catalog_url(&self) -> (r: String)
        ensures
            r@ == self.base_url@ + "/api/v1/catalog"@,
    {
        let mut u = self.base_url.clone();
        u.append("/api/v1/catalog");
        u
    }

    /// The `Authorization` header value naming the user.
    pub fn authorization(&self) -> (r: String)
        ensures
            r@ == "Bearer "@ + self.username@,
    {
        proof {
            broadcast use vstd::string::group_string_axioms;
        }
        let mut h = "Bearer ".to_string();
        h.append(self.username.as_str());
        h
    }

    /// The body of a query: its SQL, in the client's session.
    pub fn query_request(&self, sql: &str, session_id: &str) -> (r: QueryRequest)
        ensures
            r.sql@ == sql@,
            r.session_id matches Some(s) && s@ == session_id@,
    {
        proof {
            broadcast use vstd::string::group_string_axioms;
        }
        QueryRequest { sql: sql.to_string(), session_id: Some(session_id.to_string()) }
    }
}

/// The audit pane's line for a streamed event: `[now]` where it carries a
/// time and `[?]` where not, then its kind and its user.
pub open spec fn audit_line_view(e: AuditEventProto) -> Seq<char> {
    "["@ + (if e.occurred_at is Some { "now"@ } else { "?"@ }) + "] "@ + e.event_type@ + " "@ + e.user_id@
}

/// The audit pane's line for a streamed event.
pub fn audit_line(event: &AuditEventProto) -> (r: String)
    ensures
        r@ == audit_line_view(*event),
{
    proof {
        broadcast use vstd::string::group_string_axioms;
    }
    let mut l = "[".to_string();
    match event.occurred_at {
        Some(_) => l.append("now"),
        None => l.append("?"),
    }
    l.append("] ");
    l.append(event.event_type.as_str());
    l.append(" ");
    l.append(event.user_id.as_str());
    l
}

} // verus!
