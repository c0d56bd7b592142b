//! How key presses drive the terminal client.
//!
//! Global keys come first: Ctrl+C quits, Tab moves the focus, Ctrl+R
//! reloads the catalog, F5 or Ctrl+Enter runs the editor's SQL and Ctrl+L
//! clears the editor while it has the focus. Other keys scroll the focused
//! results or audit pane, or go to the editor.

use vstd::prelude::*;
use crate::text::{blank, is_blank, join, join_strings, views};
use crate::tui::app::{pane_after, App, Pane};

verus! {

/// The modifier keys held with a key: none, Ctrl alone, or any other set.
#[derive(Debug, Clone, Copy, PartialEq, Eq, Structural)]
pub enum Modifiers {
    NoModifier,
    ControlOnly,
    Other,
}

/// The key pressed.
#[derive(Debug, Clone, Copy, PartialEq, Eq, Structural)]
pub enum KeyPress {
    Char(char),
    Tab,
    Enter,
    F(u8),
    Up,
    Down,
    Other,
}

/// A key press with its modifiers.
#[derive(Debug, Clone, Copy, PartialEq, Eq, Structural)]
pub struct KeyInput {
    pub modifiers: Modifiers,
    pub code: KeyPress,
}

/// What the caller does after a key press.
#[derive(Debug, Clone, Copy, PartialEq, Eq, Structural)]
pub enum KeyAction {
    /// Leave the client.
    Quit,
    /// Nothing more to do.
    Handled,
    /// Load the catalog again.
    RefreshCatalog,
    /// Run the SQL in the editor (see [`App::start_query`]).
    ExecuteQuery,
    /// Empty the editor.
    ClearEditor,
    /// Hand the key to the editor.
    EditorInput,
}

/// The action a global key asks for, where the key is a global one while
/// `pane` has the focus.
pub open spec fn global_action(pane: Pane, key: KeyInput) -> Option<KeyAction> {
    match (key.modifiers, key.code) {
        (Modifiers::ControlOnly, KeyPress::Char('c')) => Some(KeyAction::Quit),
        (Modifiers::NoModifier, KeyPress::Tab) => Some(KeyAction::Handled),
        (Modifiers::ControlOnly, KeyPress::Char('r')) => Some(KeyAction::RefreshCatalog),
        (Modifiers::NoModifier, KeyPress::F(5)) => Some(KeyAction::ExecuteQuery),
        (Modifiers::ControlOnly, KeyPress::Enter) => Some(KeyAction::ExecuteQuery),
        (Modifiers::ControlOnly, KeyPress::Char('l')) => if pane == Pane::Editor {
            Some(KeyAction::ClearEditor)
        } else {
            None
        },
        _ => None,
    }
}

/// The action for a key pressed while `pane` has the focus.
pub open spec fn key_action(pane: Pane, key: KeyInput) -> KeyAction {
    match global_action(pane, key) {
        Some(a) => a,
        None => if pane == Pane::Editor {
            KeyAction::EditorInput
        } else {
            KeyAction::Handled
        },
    }
}

/// A scroll position after a key that reaches the pane it belongs to: one
/// up (not past the top) on Up, one down on Down.
pub open spec fn scrolled(scroll: u16, code: KeyPress) -> int {
    match code {
        KeyPress::Up => if scroll == 0 { 0 } else { scroll - 1 },
        KeyPress::Down => scroll + 1,
        _ => scroll as int,
    }
}

/// The scroll position of pane `target` after `key` is pressed while `pane`
/// has the focus.
pub open spec fn scroll_after(pane: Pane, key: KeyInput, target: Pane, scroll: u16) -> int {
    if global_action(pane, key) is None && pane == target {
        scrolled(scroll, key.code)
    } else {
        scroll as int
    }
}

/// The key scrolls pane `target` down while it has the focus.
pub open spec fn scrolls_down(pane: Pane, key: KeyInput, target: Pane) -> bool {
    global_action(pane, key) is None && pane == target && key.code == KeyPress::Down
}

/// In a focused pane that scrolls (results or audit), Up moves one line up
/// (staying at the top) and Down one line down, whatever modifiers are
/// held; the other pane's position stays.
pub proof fn law_scroll_keys(pane: Pane, other: Pane, m: Modifiers, scroll: u16)
    requires
        pane == Pane::Results || pane == Pane::Audit,
        other != pane,
    ensures
        scroll > 0 ==> scroll_after(pane, KeyInput { modifiers: m, code: KeyPress::Up }, pane, scroll) == scroll - 1,
        scroll == 0 ==> scroll_after(pane, KeyInput { modifiers: m, code: KeyPress::Up }, pane, scroll) == 0,
        scroll_after(pane, KeyInput { modifiers: m, code: KeyPress::Down }, pane, scroll) == scroll + 1,
        scroll_after(pane, KeyInput { modifiers: m, code: KeyPress::Up }, other, scroll) == scroll,
        scroll_after(pane, KeyInput { modifiers: m, code: KeyPress::Down }, other, scroll) == scroll,
{
}

impl App {
    /// Takes in a key press and says what the caller does next.
    pub fn handle_key(&mut self, key: KeyInput) -> (r: KeyAction)
        requires
            scrolls_down(old(self).active_pane, key, Pane::Results) ==> old(self).results_scroll < u16::MAX,
            scrolls_down(old(self).active_pane, key, Pane::Audit) ==> old(self).audit_scroll < u16::MAX,
        ensures
            r == key_action(old(self).active_pane, key),
            final(self).active_pane == if key.modifiers == Modifiers::NoModifier && key.code == KeyPress::Tab {
                pane_after(old(self).active_pane)
            } else {
                old(self).active_pane
            },
            r == KeyAction::RefreshCatalog ==> final(self).status_message@ == "Refreshing catalog..."@,
            r != KeyAction::RefreshCatalog ==> final(self).status_message == old(self).status_message,
            final(self).results_scroll == scroll_after(old(self).active_pane, key, Pane::Results, old(self).results_scroll),
            final(self).audit_scroll == scroll_after(old(self).active_pane, key, Pane::Audit, old(self).audit_scroll),
            final(self).results == old(self).results,
            final(self).audit_log == old(self).audit_log,
            final(self).catalog == old(self).catalog,
            final(self).is_loading == old(self).is_loading,
            final(self).session_id == old(self).session_id,
            final(self).username == old(self).username,
            final(self).query_endpoint == old(self).query_endpoint,
            final(self).central_endpoint == old(self).central_endpoint,
    {
        proof {
            broadcast use vstd::string::group_string_axioms;
        }
        match (key.modifiers, key.code) {
            (Modifiers::ControlOnly, KeyPress::Char('c')) => return KeyAction::Quit,
            (Modifiers::NoModifier, KeyPress::Tab) => {
                self.next_pane();
                return KeyAction::Handled;
            },
            (Modifiers::ControlOnly, KeyPress::Char('r')) => {
                self.status_message = "Refreshing catalog...".to_string();
                return KeyAction::RefreshCatalog;
            },
            (Modifiers::NoModifier, KeyPress::F(5)) | (Modifiers::ControlOnly, KeyPress::Enter) => {
                return KeyAction::ExecuteQuery;
            },
            (Modifiers::ControlOnly, KeyPress::Char('l')) if self.active_pane == Pane::Editor => {
                return KeyAction::ClearEditor;
            },
            _ => {},
        }
        match self.active_pane {
            Pane::Results => {
                match key.code {
                    KeyPress::Up => self.results_scroll = self.results_scroll.saturating_sub(1),
                    KeyPress::Down => self.results_scroll = self.results_scroll + 1,
                    _ => {},
                }
                KeyAction::Handled
            },
            Pane::Audit => {
                match key.code {
                    KeyPress::Up => self.audit_scroll = self.audit_scroll.saturating_sub(1),
                    KeyPress::Down => self.audit_scroll = self.audit_scroll + 1,
                    _ => {},
                }
                KeyAction::Handled
            },
            Pane::Editor => KeyAction::EditorInput,
            Pane::Catalog => KeyAction::Handled,
        }
    }

    /// Starts running the editor's SQL, its `lines` joined by line breaks.
    /// Where the SQL is blank the status says so and nothing runs; else the
    /// client shows it is loading, focuses the results from their top, and
    /// hands back the SQL to send.
    pub fn start_query(&mut self, lines: &Vec<String>) -> (r: Option<String>)
        ensures
            is_blank(join(views(lines@), "\n"@)) ==> {
                &&& r is None
                &&& final(self).status_message@ == "No SQL to execute"@
                &&& final(self).is_loading == old(self).is_loading
                &&& final(self).active_pane == old(self).active_pane
                &&& final(self).results_scroll == old(self).results_scroll
            },
            !is_blank(join(views(lines@), "\n"@)) ==> {
                &&& r matches Some(sql) && sql@ == join(views(lines@), "\n"@)
                &&& final(self).status_message@ == "Executing..."@
                &&& final(self).is_loading
                &&& final(self).active_pane == Pane::Results
                &&& final(self).results_scroll == 0
            },
            final(self).results == old(self).results,
            final(self).audit_log == old(self).audit_log,
            final(self).audit_scroll == old(self).audit_scroll,
            final(self).catalog == old(self).catalog,
            final(self).session_id == old(self).session_id,
            final(self).username == old(self).username,
            final(self).query_endpoint == old(self).query_endpoint,
            final(self).central_endpoint == old(self).central_endpoint,
    {
        proof {
            broadcast use vstd::string::group_string_axioms;
        }
        let sql = join_strings(lines, "\n");
        if blank(sql.as_str()) {
            self.status_message = "No SQL to execute".to_string();
            return None;
        }
        self.is_loading = true;
        self.status_message = "Executing...".to_string();
        self.results_scroll = 0;
        self.active_pane = Pane::Results;
        Some(sql)
    }
}

} // verus!
