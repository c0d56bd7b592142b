//! The terminal client's state: which pane has focus, the last results,
//! the audit log, the catalog and the status line, and how each event the
//! client receives changes them.
//!
//! The SQL editor widget and the network clients live with the caller; this
//! state holds what the client decides by.

use vstd::prelude::*;
use crate::common::api::{CatalogResponse, QueryResponse};
use crate::ids::{is_v4_uuid, new_uuid_v4, uuid_text, uuid_to_text};
use crate::text::{decimal, push_decimal};

verus! {

/// Which pane has keyboard focus.
#[derive(Debug, Clone, Copy, PartialEq, Eq, Structural)]
pub enum Pane {
    Editor,
    Results,
    Audit,
    Catalog,
}

/// The pane after `p` in tab order: Editor, Results, Audit, Catalog, Editor.
pub open spec fn pane_after(p: Pane) -> Pane {
    match p {
        Pane::Editor => Pane::Results,
        Pane::Results => Pane::Audit,
        Pane::Audit => Pane::Catalog,
        Pane::Catalog => Pane::Editor,
    }
}

/// Tab visits every pane: four presses bring the focus back to where it
/// started, passing through each other pane once.
pub proof fn law_tab_cycles(p: Pane)
    ensures
        pane_after(pane_after(pane_after(pane_after(p)))) == p,
        pane_after(p) != p,
        pane_after(pane_after(p)) != p,
        pane_after(pane_after(pane_after(p))) != p,
{
}

/// The most audit lines the client keeps.
pub const AUDIT_LOG_CAP: usize = 500;

/// The audit log after `msg` is added: the newest line last, the oldest
/// dropped once there are more than the cap.
pub open spec fn log_after_push(log: Seq<String>, msg: String) -> Seq<String> {
    let s = log.push(msg);
    if s.len() > 500 {
        s.skip(1)
    } else {
        s
    }
}

/// The state of the terminal client.
#[derive(Debug)]
pub struct App {
    pub active_pane: Pane,
    pub results: Option<QueryResponse>,
    pub results_scroll: u16,
    pub audit_log: Vec<String>,
    pub audit_scroll: u16,
    pub catalog: Option<CatalogResponse>,
    pub status_message: String,
    pub session_id: String,
    pub username: String,
    /// Base URL of the query service.
    pub query_endpoint: String,
    /// gRPC endpoint of the central service, where there is one.
    pub central_endpoint: Option<String>,
    pub is_loading: bool,
}

/// `Done: <rows> rows in <ms>ms`.
pub open spec fn done_message(rows: nat, duration_ms: nat) -> Seq<char> {
    "Done: "@ + decimal(rows) + " rows in "@ + decimal(duration_ms) + "ms"@
}

/// `Catalog loaded: <n> namespace(s)`.
pub open spec fn catalog_loaded_message(n: nat) -> Seq<char> {
    "Catalog loaded: "@ + decimal(n) + " namespace(s)"@
}

impl App {
    /// A client for `username` with the focus in the editor, nothing loaded,
    /// status `Ready` and a fresh random session.
    pub fn new(query_url: String, central_url: Option<String>, username: String) -> (r: Self)
        ensures
            r.active_pane == Pane::Editor,
            r.results is None,
            r.results_scroll == 0,
            r.audit_log@.len() == 0,
            r.audit_scroll == 0,
            r.catalog is None,
            r.status_message@ == "Ready"@,
            exists|v: u128| is_v4_uuid(v) && r.session_id@ == uuid_text(v),
            r.username == username,
            r.query_endpoint == query_url,
            r.central_endpoint == central_url,
            !r.is_loading,
    {
        proof {
            broadcast use vstd::string::group_string_axioms;
        }
        let session = new_uuid_v4();
        App {
            active_pane: Pane::Editor,
            results: None,
            results_scroll: 0,
            audit_log: Vec::new(),
            audit_scroll: 0,
            catalog: None,
            status_message: "Ready".to_string(),
            session_id: uuid_to_text(session),
            username,
            query_endpoint: query_url,
            central_endpoint: central_url,
            is_loading: false,
        }
    }

    /// Moves the focus to the next pane in tab order.
    pub fn next_pane(&mut self)
        ensures
            final(self).active_pane == pane_after(old(self).active_pane),
            final(self).session_id == old(self).session_id,
            final(self).username == old(self).username,
            final(self).query_endpoint == old(self).query_endpoint,
            final(self).central_endpoint == old(self).central_endpoint,
            final(self).results == old(self).results,
            final(self).results_scroll == old(self).results_scroll,
            final(self).audit_log == old(self).audit_log,
            final(self).audit_scroll == old(self).audit_scroll,
            final(self).catalog == old(self).catalog,
            final(self).status_message == old(self).status_message,
            final(self).is_loading == old(self).is_loading,
    {
        self.active_pane = match self.active_pane {
            Pane::Editor => Pane::Results,
            Pane::Results => Pane::Audit,
            Pane::Audit => Pane::Catalog,
            Pane::Catalog => Pane::Editor,
        };
    }

    /// Adds a line to the audit log, dropping the oldest line once the log
    /// holds more than 500.
    pub fn push_audit(&mut self, msg: String)
        ensures
            final(self).audit_log@ == log_after_push(old(self).audit_log@, msg),
            old(self).audit_log@.len() <= 500 ==> final(self).audit_log@.len() <= 500,
            final(self).active_pane == old(self).active_pane,
            final(self).results == old(self).results,
            final(self).results_scroll == old(self).results_scroll,
            final(self).audit_scroll == old(self).audit_scroll,
            final(self).catalog == old(self).catalog,
            final(self).status_message == old(self).status_message,
            final(self).is_loading == old(self).is_loading,
            final(self).session_id == old(self).session_id,
            final(self).username == old(self).username,
            final(self).query_endpoint == old(self).query_endpoint,
            final(self).central_endpoint == old(self).central_endpoint,
    {
        self.audit_log.push(msg);
        if self.audit_log.len() > AUDIT_LOG_CAP {
            self.audit_log.remove(0);
        }
        assert(self.audit_log@ =~= log_after_push(old(self).audit_log@, msg));
    }

    /// Takes in the outcome of a query: on success the results and a
    /// `Done` status, on failure `Error: ` and the error; loading ends
    /// either way.
    pub fn on_query_result(&mut self, result: Result<QueryResponse, String>)
        ensures
            !final(self).is_loading,
            match result {
                Ok(resp) => final(self).results == Some(resp)
                    && final(self).status_message@ == done_message(resp.rows@.len(), resp.duration_ms as nat),
                Err(e) => final(self).results == old(self).results
                    && final(self).status_message@ == "Error: "@ + e@,
            },
            final(self).active_pane == old(self).active_pane,
            final(self).audit_log == old(self).audit_log,
            final(self).catalog == old(self).catalog,
            final(self).results_scroll == old(self).results_scroll,
            final(self).audit_scroll == old(self).audit_scroll,
            final(self).session_id == old(self).session_id,
            final(self).username == old(self).username,
            final(self).query_endpoint == old(self).query_endpoint,
            final(self).central_endpoint == old(self).central_endpoint,
    {
        self.is_loading = false;
        match result {
            Ok(resp) => {
                let mut msg = "Done: ".to_string();
                push_decimal(&mut msg, resp.rows.len() as u64);
                msg.append(" rows in ");
                push_decimal(&mut msg, resp.duration_ms);
                msg.append("ms");
                self.status_message = msg;
                self.results = Some(resp);
            },
            Err(e) => {
                let mut msg = "Error: ".to_string();
                msg.append(e.as_str());
                self.status_message = msg;
            },
        }
        proof {
            broadcast use vstd::string::group_string_axioms;
        }
    }

    /// Takes in a freshly loaded catalog and reports how many namespaces it has.
    pub fn on_catalog_loaded(&mut self, catalog: CatalogResponse)
        ensures
            final(self).catalog == Some(catalog),
            final(self).status_message@ == catalog_loaded_message(catalog.namespaces@.len()),
            final(self).active_pane == old(self).active_pane,
            final(self).results == old(self).results,
            final(self).audit_log == old(self).audit_log,
            final(self).is_loading == old(self).is_loading,
            final(self).results_scroll == old(self).results_scroll,
            final(self).audit_scroll == old(self).audit_scroll,
            final(self).session_id == old(self).session_id,
            final(self).username == old(self).username,
            final(self).query_endpoint == old(self).query_endpoint,
            final(self).central_endpoint == old(self).central_endpoint,
    {
        proof {
            broadcast use vstd::string::group_string_axioms;
        }
        let count = catalog.namespaces.len();
        self.catalog = Some(catalog);
        let mut msg = "Catalog loaded: ".to_string();
        push_decimal(&mut msg, count as u64);
        msg.append(" namespace(s)");
        self.status_message = msg;
    }
}

} // verus!
