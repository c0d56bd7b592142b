use elan::common::api::{CatalogResponse, DatasetSummary, NamespaceInfo, QueryResponse};
use elan::common::proto::AuditEventProto;
use elan::tui::app::{App, Pane};
use elan::tui::client::{audit_line, QueryClient};
use elan::tui::keys::{KeyAction, KeyInput, KeyPress, Modifiers};
use elan::tui::view::cell_text;

fn app() -> App {
    App::new("http://localhost:3000".into(), None, "alice".into())
}

fn key(modifiers: Modifiers, code: KeyPress) -> KeyInput {
    KeyInput { modifiers, code }
}

fn response(rows: usize) -> QueryResponse {
    QueryResponse {
        query_id: 1,
        columns: vec!["id".into(), "name".into()],
        rows: (0..rows).map(|i| vec![Some(i.to_string()), None]).collect(),
        duration_ms: 12,
    }
}

#[test]
fn new_client_state() {
    let a = app();
    assert_eq!(a.active_pane, Pane::Editor);
    assert!(a.results.is_none());
    assert_eq!(a.status_message, "Ready");
    assert_eq!(a.session_id.len(), 36);
    assert_eq!(a.username, "alice");
    assert_eq!(a.query_endpoint, "http://localhost:3000");
    assert!(!a.is_loading);
}

#[test]
fn tab_cycles_through_the_panes() {
    let mut a = app();
    let mut seen = vec![];
    for _ in 0..4 {
        a.next_pane();
        seen.push(a.active_pane);
    }
    assert_eq!(seen, vec![Pane::Results, Pane::Audit, Pane::Catalog, Pane::Editor]);
    assert_eq!(a.handle_key(key(Modifiers::NoModifier, KeyPress::Tab)), KeyAction::Handled);
    assert_eq!(a.active_pane, Pane::Results);
}

#[test]
fn audit_log_keeps_the_newest_five_hundred() {
    let mut a = app();
    for i in 0..502 {
        a.push_audit(format!("event {i}"));
    }
    assert_eq!(a.audit_log.len(), 500);
    assert_eq!(a.audit_log[0], "event 2");
    assert_eq!(a.audit_log[499], "event 501");
}

#[test]
fn global_keys() {
    let mut a = app();
    assert_eq!(a.handle_key(key(Modifiers::ControlOnly, KeyPress::Char('c'))), KeyAction::Quit);
    assert_eq!(a.handle_key(key(Modifiers::ControlOnly, KeyPress::Char('r'))), KeyAction::RefreshCatalog);
    assert_eq!(a.status_message, "Refreshing catalog...");
    assert_eq!(a.handle_key(key(Modifiers::NoModifier, KeyPress::F(5))), KeyAction::ExecuteQuery);
    assert_eq!(a.handle_key(key(Modifiers::ControlOnly, KeyPress::Enter)), KeyAction::ExecuteQuery);
    assert_eq!(a.handle_key(key(Modifiers::ControlOnly, KeyPress::Char('l'))), KeyAction::ClearEditor);
    assert_eq!(a.handle_key(key(Modifiers::NoModifier, KeyPress::Char('x'))), KeyAction::EditorInput);
    assert_eq!(a.handle_key(key(Modifiers::Other, KeyPress::Char('c'))), KeyAction::EditorInput);
    assert_eq!(a.handle_key(key(Modifiers::NoModifier, KeyPress::F(4))), KeyAction::EditorInput);
}

#[test]
fn scrolling_in_results_and_audit() {
    let mut a = app();
    a.next_pane();
    assert_eq!(a.handle_key(key(Modifiers::NoModifier, KeyPress::Up)), KeyAction::Handled);
    assert_eq!(a.results_scroll, 0);
    a.handle_key(key(Modifiers::NoModifier, KeyPress::Down));
    a.handle_key(key(Modifiers::NoModifier, KeyPress::Down));
    a.handle_key(key(Modifiers::NoModifier, KeyPress::Up));
    assert_eq!(a.results_scroll, 1);
    assert_eq!(a.handle_key(key(Modifiers::ControlOnly, KeyPress::Char('l'))), KeyAction::Handled);
    a.next_pane();
    a.handle_key(key(Modifiers::NoModifier, KeyPress::Down));
    assert_eq!(a.audit_scroll, 1);
    assert_eq!(a.results_scroll, 1);
    a.next_pane();
    assert_eq!(a.handle_key(key(Modifiers::NoModifier, KeyPress::Down)), KeyAction::Handled);
    assert_eq!(a.audit_scroll, 1);
}

#[test]
fn starting_a_query() {
    let mut a = app();
    assert_eq!(a.start_query(&vec!["  ".into(), "\t".into()]), None);
    assert_eq!(a.status_message, "No SQL to execute");
    assert!(!a.is_loading);
    a.results_scroll = 3;
    let sql = a.start_query(&vec!["SELECT *".into(), "FROM crm.customers".into()]);
    assert_eq!(sql.as_deref(), Some("SELECT *\nFROM crm.customers"));
    assert!(a.is_loading);
    assert_eq!(a.status_message, "Executing...");
    assert_eq!(a.active_pane, Pane::Results);
    assert_eq!(a.results_scroll, 0);
}

#[test]
fn query_outcomes_update_status() {
    let mut a = app();
    a.is_loading = true;
    a.on_query_result(Ok(response(3)));
    assert!(!a.is_loading);
    assert_eq!(a.status_message, "Done: 3 rows in 12ms");
    assert_eq!(a.results_title(), " Results [3 rows] ");
    a.on_query_result(Err("query failed (403 Forbidden)".into()));
    assert_eq!(a.status_message, "Error: query failed (403 Forbidden)");
    assert!(a.results.is_some());
}

#[test]
fn catalog_view() {
    let mut a = app();
    assert_eq!(a.catalog_lines(), vec!["(not loaded — press Ctrl+R)".to_string()]);
    a.on_catalog_loaded(CatalogResponse {
        namespaces: vec![
            NamespaceInfo {
                name: "crm".into(),
                datasets: vec![DatasetSummary { name: "customers".into(), source_type: "unknown".into(), coordinator_id: String::new() }],
            },
            NamespaceInfo { name: "finance".into(), datasets: vec![] },
        ],
    });
    assert_eq!(a.status_message, "Catalog loaded: 2 namespace(s)");
    assert_eq!(
        a.catalog_lines(),
        vec!["▾ crm".to_string(), "  └ customers (unknown)".to_string(), "▾ finance".to_string()]
    );
}

#[test]
fn titles_rows_and_status_bar() {
    let mut a = app();
    assert_eq!(a.editor_title(), " SQL Editor [alice] ");
    assert_eq!(a.results_title(), " Results ");
    a.is_loading = true;
    assert_eq!(a.results_title(), " Results [loading...] ");
    a.is_loading = false;
    a.results = Some(response(4));
    a.results_scroll = 2;
    let rows = a.visible_rows();
    assert_eq!(rows, vec![vec!["2".to_string(), "NULL".to_string()], vec!["3".to_string(), "NULL".to_string()]]);
    a.results_scroll = 9;
    assert!(a.visible_rows().is_empty());
    assert_eq!(cell_text(&Some("x".into())), "x");
    assert_eq!(a.status_line(), " Ready | Tab:pane  F5/Ctrl+Enter:run  Ctrl+R:refresh  Ctrl+C:quit ");
}

#[test]
fn audit_pane_shows_newest_first() {
    let mut a = app();
    for m in ["a", "b", "c", "d"] {
        a.push_audit(m.to_string());
    }
    assert_eq!(a.audit_title(), " Audit [4 events] ");
    assert_eq!(a.visible_audit(2), vec!["d".to_string(), "c".to_string()]);
    a.audit_scroll = 3;
    assert_eq!(a.visible_audit(10), vec!["a".to_string()]);
    a.audit_scroll = 4;
    assert!(a.visible_audit(10).is_empty());
}

#[test]
fn query_client_requests() {
    let c = QueryClient::new("http://q:3000".into(), "bob".into());
    assert_eq!(c.query_url(), "http://q:3000/api/v1/query");
    assert_eq!(c.catalog_url(), "http://q:3000/api/v1/catalog");
    assert_eq!(c.authorization(), "Bearer bob");
    let r = c.query_request("SELECT 1", "s-1");
    assert_eq!(r.sql, "SELECT 1");
    assert_eq!(r.session_id.as_deref(), Some("s-1"));
}

#[test]
fn audit_stream_lines() {
    let mut e = AuditEventProto {
        event_id: "1".into(),
        event_type: "QuerySubmitted".into(),
        occurred_at: None,
        source_service: "elan-query".into(),
        user_id: "alice".into(),
        session_id: String::new(),
        payload_json: "{}".into(),
    };
    assert_eq!(audit_line(&e), "[?] QuerySubmitted alice");
    e.occurred_at = Some((1, 0));
    assert_eq!(audit_line(&e), "[now] QuerySubmitted alice");
}

#[test]
fn quit_and_scroll_keep_the_rest_of_the_state() {
    let mut a = app();
    let (user, query, central, session) = (a.username.clone(), a.query_endpoint.clone(), a.central_endpoint.clone(), a.session_id.clone());
    assert_eq!(a.handle_key(key(Modifiers::ControlOnly, KeyPress::Char('c'))), KeyAction::Quit);
    assert_eq!((a.username.clone(), a.query_endpoint.clone(), a.central_endpoint.clone(), a.session_id.clone()), (user.clone(), query.clone(), central.clone(), session.clone()));
    assert_eq!(a.active_pane, Pane::Editor);
    a.active_pane = Pane::Results;
    assert_eq!(a.handle_key(key(Modifiers::NoModifier, KeyPress::Down)), KeyAction::Handled);
    assert_eq!(a.handle_key(key(Modifiers::NoModifier, KeyPress::Down)), KeyAction::Handled);
    assert_eq!(a.handle_key(key(Modifiers::NoModifier, KeyPress::Up)), KeyAction::Handled);
    assert_eq!(a.results_scroll, 1);
    assert_eq!(a.audit_scroll, 0);
    assert_eq!(a.status_message, "Ready");
    assert_eq!((a.username.clone(), a.query_endpoint.clone(), a.central_endpoint.clone(), a.session_id.clone()), (user, query, central, session));
}
