//! JSON handling delegated to `serde_json`.

use vstd::prelude::*;

verus! {

/// The map that a sequence of key/value pairs denotes; a later pair overrides
/// an earlier one with the same key.
pub open spec fn pairs_map<V>(s: Seq<(String, V)>) -> Map<Seq<char>, V>
    decreases s.len(),
{
    if s.len() == 0 {
        Map::empty()
    } else {
        pairs_map(s.drop_last()).insert(s.last().0@, s.last().1)
    }
}

/// No two pairs share a key.
pub open spec fn distinct_keys<V>(s: Seq<(String, V)>) -> bool {
    forall|i: int, j: int| 0 <= i < j < s.len() ==> (#[trigger] s[i]).0@ != (#[trigger] s[j]).0@
}

/// The view of a map from strings to strings.
pub open spec fn text_pairs_map(s: Seq<(String, String)>) -> Map<Seq<char>, Seq<char>> {
    pairs_map(s).map_values(|v: String| v@)
}

/// What `serde_json::from_str::<HashMap<String, String>>` yields for a text:
/// `None` where the text is not a JSON object of strings.
pub uninterp spec fn json_string_map(text: Seq<char>) -> Option<Map<Seq<char>, Seq<char>>>;

/// `serde_json::from_str::<HashMap<String, String>>`, the map handed out as
/// its pairs. The pairs come in the map's iteration order, which the contract
/// leaves open; it claims that the keys are distinct and that the pairs denote
/// the parsed map.
#[verifier::external_body]
pub(crate) fn parse_string_map(text: &str) -> (r: Option<Vec<(String, String)>>)
    ensures
        r is Some <==> json_string_map(text@) is Some,
        r matches Some(v) ==> distinct_keys(v@) && text_pairs_map(v@) == json_string_map(text@)->0,
{
    serde_json::from_str::<std::collections::HashMap<String, String>>(text)
        .ok()
        .map(|m| m.into_iter().collect())
}

/// What `serde_json::from_str::<Value>` followed by `Value::to_string` yields:
/// the compact rendering of the JSON value a text holds, or the text of the
/// parse error.
pub uninterp spec fn json_compact(text: Seq<char>) -> Result<Seq<char>, Seq<char>>;

/// A result of texts taken by their views.
pub open spec fn text_result_view(r: Result<String, String>) -> Result<Seq<char>, Seq<char>> {
    match r {
        Ok(s) => Ok(s@),
        Err(e) => Err(e@),
    }
}

/// Parses a JSON text with `serde_json` and renders the value compactly again;
/// a parse error is handed back as its text.
#[verifier::external_body]
pub(crate) fn compact_json(text: &str) -> (r: Result<String, String>)
    ensures
        text_result_view(r) == json_compact(text@),
{
    serde_json::from_str::<serde_json::Value>(text).map(|v| v.to_string()).map_err(|e| e.to_string())
}

/// `serde_json::to_string` of the `HashMap<String, String>` holding the pairs.
/// The order of the object's members follows the map's iteration order, which
/// the contract leaves open; it claims that the text parses back to the map.
#[verifier::external_body]
pub(crate) fn render_string_map(pairs: &Vec<(String, String)>) -> (r: String)
    requires
        distinct_keys(pairs@),
    ensures
        json_string_map(r@) == Some(text_pairs_map(pairs@)),
{
    let m: std::collections::HashMap<String, String> = pairs.iter().cloned().collect();
    serde_json::to_string(&m).unwrap_or_default()
}

} // verus!
