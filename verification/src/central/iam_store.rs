//! The IAM store's row mapping.

use vstd::prelude::*;
use crate::iam::types::{Policy, PolicyEffect, SubjectType};
use crate::ids::{parse_uuid, uuid_parse};
use crate::text::str_eq;

verus! {

/// A policy row as the IAM store reads it, joined with its subject.
#[derive(Debug, Clone)]
pub struct PolicyRow {
    pub id: String,
    pub subject_name: String,
    pub subject_type: String,
    pub resource_pattern: String,
    pub action: String,
    pub effect: String,
    pub row_filter: Option<String>,
    pub column_mask_json: Option<String>,
    pub priority: i64,
}

/// The policy a row holds: subject type `group` is a group policy and any
/// other a user policy, effect `Deny` denies and any other allows, the
/// priority is truncated to 32 bits.
pub open spec fn policy_of_row(row: PolicyRow, p: Policy, id: u128) -> bool {
    &&& p.id == id
    &&& p.subject_name == row.subject_name
    &&& p.subject_type == (if row.subject_type@ == "group"@ { SubjectType::Group } else { SubjectType::User })
    &&& p.resource_pattern == row.resource_pattern
    &&& p.action == row.action
    &&& p.effect == (if row.effect@ == "Deny"@ { PolicyEffect::Deny } else { PolicyEffect::Allow })
    &&& p.row_filter == row.row_filter
    &&& p.column_mask_json == row.column_mask_json
    &&& p.priority == row.priority as i32
}

/// The policy a row describes; a row whose id is not a UUID is an error,
/// with the parse error's message.
pub fn row_to_policy(row: PolicyRow) -> (r: Result<Policy, String>)
    ensures
        match uuid_parse(row.id@) {
            Err(m) => r matches Err(e) && e@ == m,
            Ok(id) => r matches Ok(p) && policy_of_row(row, p, id),
        },
{
    let id = match parse_uuid(row.id.as_str()) {
        Ok(id) => id,
        Err(e) => return Err(e),
    };
    let subject_type = if str_eq(row.subject_type.as_str(), "group") {
        SubjectType::Group
    } else {
        SubjectType::User
    };
    let effect = if str_eq(row.effect.as_str(), "Deny") {
        PolicyEffect::Deny
    } else {
        PolicyEffect::Allow
    };
    Ok(Policy {
        id,
        subject_name: row.subject_name,
        subject_type,
        resource_pattern: row.resource_pattern,
        action: row.action,
        effect,
        row_filter: row.row_filter,
        column_mask_json: row.column_mask_json,
        priority: row.priority as i32,
    })
}

/// The view of an optional subject name.
pub open spec fn subject_filter(subject_name: Option<&str>) -> Option<Seq<char>> {
    match subject_name {
        Some(n) => Some(n@),
        None => None,
    }
}

/// The rows a subject filter selects: all rows without a filter, else those of the named subject.
pub open spec fn row_selected(row: PolicyRow, subject_name: Option<Seq<char>>) -> bool {
    match subject_name {
        None => true,
        Some(n) => row.subject_name@ == n,
    }
}

/// The rows a subject filter selects, in their order.
pub open spec fn selected_policy_rows(rows: Seq<PolicyRow>, subject_name: Option<Seq<char>>) -> Seq<PolicyRow>
    decreases rows.len(),
{
    if rows.len() == 0 {
        Seq::empty()
    } else {
        let rest = selected_policy_rows(rows.drop_last(), subject_name);
        if row_selected(rows.last(), subject_name) {
            rest.push(rows.last())
        } else {
            rest
        }
    }
}

/// The row's id parses and the row holds policy `p`.
pub open spec fn row_gives(row: PolicyRow, p: Policy) -> bool {
    match uuid_parse(row.id@) {
        Ok(id) => policy_of_row(row, p, id),
        Err(_) => false,
    }
}

/// Every selected row describes a policy, and `ps` are those policies in order.
pub open spec fn policies_of_rows(rows: Seq<PolicyRow>, ps: Seq<Policy>) -> bool {
    &&& ps.len() == rows.len()
    &&& forall|i: int| 0 <= i < rows.len() ==> row_gives(#[trigger] rows[i], ps[i])
}

/// The selection from a shorter prefix of the rows begins the selection from a longer one.
proof fn lemma_selected_prefix(rows: Seq<PolicyRow>, m: int, n: int, filter: Option<Seq<char>>)
    requires
        0 <= m <= n <= rows.len(),
    ensures
        selected_policy_rows(rows.take(m), filter).len() <= selected_policy_rows(rows.take(n), filter).len(),
        forall|j: int| 0 <= j < selected_policy_rows(rows.take(m), filter).len()
            ==> #[trigger] selected_policy_rows(rows.take(n), filter)[j] == selected_policy_rows(rows.take(m), filter)[j],
    decreases n - m,
{
    if m < n {
        lemma_selected_prefix(rows, m, n - 1, filter);
        assert(rows.take(n).drop_last() =~= rows.take(n - 1));
    }
}

/// The policies of the rows that a subject filter selects, in row order. The
/// first selected row whose id is not a UUID makes the whole listing fail.
pub fn list_policies(rows: Vec<PolicyRow>, subject_name: Option<&str>) -> (r: Result<Vec<Policy>, String>)
    ensures
        ({
            let sel = selected_policy_rows(rows@, subject_filter(subject_name));
            match r {
                Ok(ps) => policies_of_rows(sel, ps@),
                Err(e) => exists|k: int| 0 <= k < sel.len()
                    && (forall|j: int| 0 <= j < k ==> #[trigger] uuid_parse(sel[j].id@) is Ok)
                    && uuid_parse(sel[k].id@) == Err::<u128, Seq<char>>(e@),
            }
        }),
{
    let ghost filter = subject_filter(subject_name);
    let ghost all = rows@;
    let mut out: Vec<Policy> = Vec::new();
    let ghost mut sel: Seq<PolicyRow> = Seq::empty();
    for row in it: rows
        invariant
            it.seq() == all,
            filter == subject_filter(subject_name),
            sel == selected_policy_rows(all.take(it.index()), filter),
            policies_of_rows(sel, out@),
    {
        let ghost i = it.index();
        assert(all.take(i + 1).drop_last() =~= all.take(i));
        assert(all.take(i + 1).last() == row);
        let keep = match subject_name {
            Some(n) => str_eq(row.subject_name.as_str(), n),
            None => true,
        };
        let ghost rowv = row;
        if keep {
            match row_to_policy(row) {
                Ok(p) => {
                    proof {
                        sel = sel.push(row);
                    }
                    out.push(p);
                    assert forall|k: int| 0 <= k < sel.len() implies row_gives(#[trigger] sel[k], out@[k]) by {
                        if k < sel.len() - 1 {
                            assert(row_gives(sel.drop_last()[k], out@.drop_last()[k]));
                        }
                    }
                },
                Err(e) => {
                    proof {
                        let full = selected_policy_rows(all, filter);
                        let now = selected_policy_rows(all.take(i + 1), filter);
                        assert(now == sel.push(row));
                        lemma_selected_prefix(all, i + 1, all.len() as int, filter);
                        assert(all.take(all.len() as int) =~= all);
                        let k = sel.len() as int;
                        assert(full[k] == now[k]);
                        assert(now[k] == rowv);
                        assert(uuid_parse(full[k].id@) == Err::<u128, Seq<char>>(e@));
                        assert forall|j: int| 0 <= j < k implies #[trigger] uuid_parse(full[j].id@) is Ok by {
                            assert(full[j] == now[j] && now[j] == sel[j]);
                            assert(row_gives(sel[j], out@[j]));
                        }
                        assert(0 <= k < full.len());
                    }
                    return Err(e);
                },
            }
        }
    }
    assert(all.take(all.len() as int) =~= all);
    Ok(out)
}

} // verus!
