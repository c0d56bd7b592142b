//! What the terminal client shows: pane titles, the visible rows and audit
//! lines, the catalog tree and the status bar, as text. Laying the text out
//! on the terminal is left to the caller.

use vstd::prelude::*;
use crate::common::api::{DatasetSummary, NamespaceInfo};
use crate::text::{decimal, push_decimal};
use crate::tui::app::App;

verus! {

/// The text of a result cell: `NULL` for SQL NULL, else the value's text.
pub open spec fn cell_view(v: Option<String>) -> Seq<char> {
    match v {
        Some(s) => s@,
        None => "NULL"@,
    }
}

/// The text of a result cell.
pub fn cell_text(v: &Option<String>) -> (r: String)
    ensures
        r@ == cell_view(*v),
{
    proof {
        broadcast use vstd::string::group_string_axioms;
    }
    match v {
        Some(s) => s.clone(),
        None => "NULL".to_string(),
    }
}

/// The line of a namespace in the catalog tree.
pub open spec fn namespace_line(ns: NamespaceInfo) -> Seq<char> {
    "▾ "@ + ns.name@
}

/// The line of a dataset in the catalog tree.
pub open spec fn dataset_line(d: DatasetSummary) -> Seq<char> {
    "  └ "@ + d.name@ + " ("@ + d.source_type@ + ")"@
}

/// The dataset lines of a namespace, in order.
pub open spec fn dataset_lines(ds: Seq<DatasetSummary>) -> Seq<Seq<char>> {
    ds.map_values(|d: DatasetSummary| dataset_line(d))
}

/// The catalog tree: each namespace's line followed by its datasets' lines.
pub open spec fn tree_lines(nss: Seq<NamespaceInfo>) -> Seq<Seq<char>>
    decreases nss.len(),
{
    if nss.len() == 0 {
        Seq::empty()
    } else {
        tree_lines(nss.drop_last()) + seq![namespace_line(nss.last())] + dataset_lines(nss.last().datasets@)
    }
}

/// The line shown while no catalog has been loaded.
pub open spec fn catalog_placeholder() -> Seq<char> {
    "(not loaded — press Ctrl+R)"@
}

/// The views of a list of strings.
pub open spec fn line_views(v: Seq<String>) -> Seq<Seq<char>> {
    v.map_values(|s: String| s@)
}

/// The key help shown in the status bar.
pub open spec fn key_help() -> Seq<char> {
    " Tab:pane  F5/Ctrl+Enter:run  Ctrl+R:refresh  Ctrl+C:quit "@
}

impl App {
    /// The editor's title, naming the user.
    pub fn editor_title(&self) -> (r: String)
        ensures
            r@ == " SQL Editor ["@ + self.username@ + "] "@,
    {
        proof {
            broadcast use vstd::string::group_string_axioms;
        }
        let mut t = " SQL Editor [".to_string();
        t.append(self.username.as_str());
        t.append("] ");
        t
    }

    /// The results pane's title: loading, the number of rows, or plain.
    pub fn results_title(&self) -> (r: String)
        ensures
            self.is_loading ==> r@ == " Results [loading...] "@,
            !self.is_loading ==> (self.results matches Some(resp) ==> r@ == " Results ["@ + decimal(resp.rows@.len()) + " rows] "@),
            !self.is_loading && self.results is None ==> r@ == " Results "@,
    {
        proof {
            broadcast use vstd::string::group_string_axioms;
        }
        if self.is_loading {
            " Results [loading...] ".to_string()
        } else {
            match &self.results {
                Some(resp) => {
                    let mut t = " Results [".to_string();
                    push_decimal(&mut t, resp.rows.len() as u64);
                    t.append(" rows] ");
                    t
                },
                None => " Results ".to_string(),
            }
        }
    }

    /// The result rows from the scroll position down, each cell as text.
    pub fn visible_rows(&self) -> (r: Vec<Vec<String>>)
        ensures
            self.results is None ==> r@.len() == 0,
            self.results matches Some(resp) ==> {
                let skip = if self.results_scroll as int <= resp.rows@.len() { self.results_scroll as int } else { resp.rows@.len() as int };
                &&& r@.len() == resp.rows@.len() - skip
                &&& forall|i: int| 0 <= i < r@.len() ==> {
                    &&& (#[trigger] r@[i])@.len() == resp.rows@[skip + i]@.len()
                    &&& forall|j: int| 0 <= j < r@[i]@.len() ==> (#[trigger] r@[i]@[j])@ == cell_view(resp.rows@[skip + i]@[j])
                }
            },
    {
        let mut out: Vec<Vec<String>> = Vec::new();
        let resp = match &self.results {
            Some(resp) => resp,
            None => return out,
        };
        let n = resp.rows.len();
        let mut i: usize = if (self.results_scroll as usize) <= n { self.results_scroll as usize } else { n };
        let ghost skip = i as int;
        while i < n
            invariant
                n == resp.rows@.len(),
                skip <= i <= n,
                out@.len() == i - skip,
                forall|a: int| 0 <= a < out@.len() ==> {
                    &&& (#[trigger] out@[a])@.len() == resp.rows@[skip + a]@.len()
                    &&& forall|j: int| 0 <= j < out@[a]@.len() ==> (#[trigger] out@[a]@[j])@ == cell_view(resp.rows@[skip + a]@[j])
                },
            decreases n - i,
        {
            let row = &resp.rows[i];
            let mut cells: Vec<String> = Vec::new();
            let mut j: usize = 0;
            while j < row.len()
                invariant
                    j <= row@.len(),
                    cells@.len() == j,
                    forall|b: int| 0 <= b < j ==> (#[trigger] cells@[b])@ == cell_view(row@[b]),
                decreases row@.len() - j,
            {
                cells.push(cell_text(&row[j]));
                j += 1;
            }
            out.push(cells);
            i += 1;
        }
        out
    }

    /// The audit pane's title, with the number of lines.
    pub fn audit_title(&self) -> (r: String)
        ensures
            r@ == " Audit ["@ + decimal(self.audit_log@.len()) + " events] "@,
    {
        proof {
            broadcast use vstd::string::group_string_axioms;
        }
        let mut t = " Audit [".to_string();
        push_decimal(&mut t, self.audit_log.len() as u64);
        t.append(" events] ");
        t
    }

    /// The audit lines a pane `height` lines high shows: newest first, from
    /// the scroll position on.
    pub fn visible_audit(&self, height: u16) -> (r: Vec<String>)
        ensures
            ({
                let n = self.audit_log@.len() as int;
                let avail = if self.audit_scroll as int <= n { n - self.audit_scroll } else { 0 };
                &&& r@.len() == if height as int <= avail { height as int } else { avail }
                &&& forall|i: int| 0 <= i < r@.len() ==> #[trigger] r@[i] == self.audit_log@[n - 1 - self.audit_scroll - i]
            }),
    {
        let n = self.audit_log.len();
        let mut out: Vec<String> = Vec::new();
        let skip = self.audit_scroll as usize;
        if skip >= n {
            return out;
        }
        let avail = n - skip;
        let count = if (height as usize) <= avail { height as usize } else { avail };
        let mut i: usize = 0;
        while i < count
            invariant
                n == self.audit_log@.len(),
                skip == self.audit_scroll,
                skip < n,
                avail == n - skip,
                count <= avail,
                i <= count,
                out@.len() == i,
                forall|a: int| 0 <= a < i ==> #[trigger] out@[a] == self.audit_log@[n - 1 - skip - a],
            decreases count - i,
        {
            out.push(self.audit_log[n - 1 - skip - i].clone());
            i += 1;
        }
        out
    }

    /// The catalog pane's lines: the tree of namespaces and datasets, or a
    /// hint while none is loaded.
    pub fn catalog_lines(&self) -> (r: Vec<String>)
        ensures
            self.catalog is None ==> line_views(r@) == seq![catalog_placeholder()],
            self.catalog matches Some(c) ==> line_views(r@) == tree_lines(c.namespaces@),
    {
        proof {
            broadcast use vstd::string::group_string_axioms;
        }
        let mut out: Vec<String> = Vec::new();
        let c = match &self.catalog {
            Some(c) => c,
            None => {
                out.push("(not loaded — press Ctrl+R)".to_string());
                assert(line_views(out@) =~= seq![catalog_placeholder()]);
                return out;
            },
        };
        let nss = &c.namespaces;
        let mut i: usize = 0;
        assert(line_views(out@) =~= tree_lines(nss@.take(0)));
        while i < nss.len()
            invariant
                i <= nss@.len(),
                line_views(out@) == tree_lines(nss@.take(i as int)),
            decreases nss@.len() - i,
        {
            let ns = &nss[i];
            let ghost before = line_views(out@);
            let mut line = "▾ ".to_string();
            line.append(ns.name.as_str());
            out.push(line);
            let ds = &ns.datasets;
            let mut j: usize = 0;
            assert(line_views(out@) =~= before + seq![namespace_line(*ns)] + dataset_lines(ds@.take(0)));
            while j < ds.len()
                invariant
                    j <= ds@.len(),
                    line_views(out@) == before + seq![namespace_line(*ns)] + dataset_lines(ds@.take(j as int)),
                decreases ds@.len() - j,
            {
                let d = &ds[j];
                let mut l = "  └ ".to_string();
                l.append(d.name.as_str());
                l.append(" (");
                l.append(d.source_type.as_str());
                l.append(")");
                let ghost prev = line_views(out@);
                out.push(l);
                assert(dataset_lines(ds@.take(j + 1)) =~= dataset_lines(ds@.take(j as int)).push(dataset_line(*d)));
                assert(line_views(out@) =~= prev.push(dataset_line(*d)));
                j += 1;
            }
            assert(ds@.take(j as int) =~= ds@);
            assert(nss@.take(i + 1).drop_last() =~= nss@.take(i as int));
            assert(nss@.take(i + 1).last() == *ns);
            i += 1;
        }
        assert(nss@.take(i as int) =~= nss@);
        out
    }

    /// The status bar: the status message and the key help.
    pub fn status_line(&self) -> (r: String)
        ensures
            r@ == " "@ + self.status_message@ + " |"@ + key_help(),
    {
        proof {
            broadcast use vstd::string::group_string_axioms;
        }
        let mut t = " ".to_string();
        t.append(self.status_message.as_str());
        t.append(" |");
        t.append(" Tab:pane  F5/Ctrl+Enter:run  Ctrl+R:refresh  Ctrl+C:quit ");
        t
    }
}

} // verus!
