//! Layered settings read with the `config` crate: built-in defaults, then a
//! TOML configuration file, then environment variables that carry a prefix.
//!
//! Reading the file and the environment is the caller's part; the values
//! read come in as plain text and pairs.

use vstd::prelude::*;
use config::{Config, ConfigError, Environment, File, FileFormat};
use crate::json::{distinct_keys, text_pairs_map, text_result_view};
use crate::text::{ascii_lower_text, ascii_text};

verus! {

/// Pairs of strings taken by their views.
pub open spec fn text_pairs(s: Seq<(String, String)>) -> Seq<(Seq<char>, Seq<char>)> {
    s.map_values(|p: (String, String)| (p.0@, p.1@))
}

/// An optional text taken by its view.
pub open spec fn opt_text_view(s: Option<&str>) -> Option<Seq<char>> {
    match s {
        Some(t) => Some(t@),
        None => None,
    }
}

/// A key that names a top-level setting: lower-case letters and underscores.
pub open spec fn plain_key(k: Seq<char>) -> bool {
    k.len() > 0 && forall|i: int| 0 <= i < k.len() ==> (('a' <= #[trigger] k[i] && k[i] <= 'z') || k[i] == '_')
}

/// Defaults with distinct plain keys.
pub open spec fn plain_defaults(defaults: Seq<(String, String)>) -> bool {
    distinct_keys(defaults) && forall|i: int| 0 <= i < defaults.len() ==> plain_key((#[trigger] defaults[i]).0@)
}

/// What the `config` crate gives for `key` as text, once built from the
/// string `defaults`, the TOML text `file_toml` where there is one, and the
/// variables `env` read as an environment with prefix `env_prefix` and
/// separator `__`: the value, nothing where no layer sets the key, or the
/// text of the error.
pub uninterp spec fn layered_text(
    defaults: Seq<(Seq<char>, Seq<char>)>,
    file_toml: Option<Seq<char>>,
    env_prefix: Seq<char>,
    env: Seq<(Seq<char>, Seq<char>)>,
    key: Seq<char>,
) -> Result<Option<Seq<char>>, Seq<char>>;

/// What the `config` crate gives for `key` as an unsigned 64-bit integer,
/// built as for [`layered_text`].
pub uninterp spec fn layered_unsigned(
    defaults: Seq<(Seq<char>, Seq<char>)>,
    file_toml: Option<Seq<char>>,
    env_prefix: Seq<char>,
    env: Seq<(Seq<char>, Seq<char>)>,
    key: Seq<char>,
) -> Result<Option<u64>, Seq<char>>;

/// A text lookup taken by its views.
pub open spec fn text_lookup_view(r: Result<Option<String>, String>) -> Result<Option<Seq<char>>, Seq<char>> {
    match r {
        Ok(Some(s)) => Ok(Some(s@)),
        Ok(None) => Ok(None),
        Err(e) => Err(e@),
    }
}

/// A number lookup with its error taken by its text.
pub open spec fn number_lookup_view(r: Result<Option<u64>, String>) -> Result<Option<u64>, Seq<char>> {
    match r {
        Ok(v) => Ok(v),
        Err(e) => Err(e@),
    }
}

/// A key with no two underscores in a row.
pub open spec fn single_underscores(k: Seq<char>) -> bool {
    forall|i: int| 0 <= i < k.len() - 1 ==> !((#[trigger] k[i]) == '_' && k[i + 1] == '_')
}

/// The setting that an environment variable names: its name in lower case
/// with the lower-case prefix and `__` taken off, where it starts with them.
pub open spec fn env_setting(prefix: Seq<char>, name: Seq<char>) -> Option<Seq<char>> {
    let pattern = ascii_lower_text(prefix) + "__"@;
    let lower = ascii_lower_text(name);
    if pattern.is_prefix_of(lower) {
        Some(lower.skip(pattern.len() as int))
    } else {
        None
    }
}

/// Environment variables that set top-level settings only: the prefix and
/// every name are ASCII, and each name that carries the prefix names a plain
/// key with no two underscores in a row.
pub open spec fn plain_env(prefix: Seq<char>, env: Seq<(String, String)>) -> bool {
    &&& ascii_text(prefix)
    &&& forall|i: int| 0 <= i < env.len() ==> ascii_text((#[trigger] env[i]).0@)
        && (env_setting(prefix, env[i].0@) matches Some(k) ==> plain_key(k) && single_underscores(k))
}

/// The value that the environment gives a setting: that of the last
/// variable that names it.
pub open spec fn env_value(prefix: Seq<char>, env: Seq<(String, String)>, key: Seq<char>) -> Option<Seq<char>>
    decreases env.len(),
{
    if env.len() == 0 {
        None
    } else if env_setting(prefix, env.last().0@) == Some(key) {
        Some(env.last().1@)
    } else {
        env_value(prefix, env.drop_last(), key)
    }
}

/// The value of a setting where there is no file: the environment's, else
/// the default, else none.
pub open spec fn unfiled_text(defaults: Seq<(String, String)>, prefix: Seq<char>, env: Seq<(String, String)>, key: Seq<char>) -> Option<Seq<char>> {
    match env_value(prefix, env, key) {
        Some(v) => Some(v),
        None => if text_pairs_map(defaults).dom().contains(key) {
            Some(text_pairs_map(defaults)[key])
        } else {
            None
        },
    }
}

/// No file, or one whose keys are bare and lower-case.
pub open spec fn settled_file(file_toml: Option<Seq<char>>) -> bool {
    match file_toml {
        Some(t) => bare_lower_keys(t),
        None => true,
    }
}

/// Layers whose values do not hang on the order in which the crate walks
/// its maps: plain defaults and a settled file.
pub open spec fn settled_layers(defaults: Seq<(String, String)>, file_toml: Option<Seq<char>>) -> bool {
    plain_defaults(defaults) && settled_file(file_toml)
}

/// The value that the environment gives a setting, else `d`.
pub open spec fn env_or(prefix: Seq<char>, env: Seq<(String, String)>, key: Seq<char>, d: Seq<char>) -> Seq<char> {
    match env_value(prefix, env, key) {
        Some(v) => v,
        None => d,
    }
}

/// On the line of position `i`, an `=` stands before it.
pub open spec fn after_equals(t: Seq<char>, i: int) -> bool {
    exists|j: int| 0 <= j < i && t[j] == '=' && forall|k: int| j < k < i ==> t[k] != '\n'
}

/// A character that would put a key outside bare lower-case keys: a quote
/// or an upper-case letter.
pub open spec fn key_marked(c: char) -> bool {
    c == '"' || c == '\'' || ('A' <= c && c <= 'Z')
}

/// TOML text whose keys are all bare and lower-case, by a conservative test
/// on the text: no brace (so no inline table), and every quote and
/// upper-case letter stands after an `=` of its line (so in a value).
pub open spec fn bare_lower_keys(t: Seq<char>) -> bool {
    &&& forall|i: int| 0 <= i < t.len() ==> #[trigger] t[i] != '{'
    &&& forall|i: int| 0 <= i < t.len() && key_marked(#[trigger] t[i]) ==> after_equals(t, i)
}

/// Where there is no file, the defaults are plain and the environment sets
/// top-level settings only, a plain key has the value that the environment
/// gives it, else its default, else none.
pub open spec fn unfiled_text_wins(defaults: Seq<(String, String)>, file_toml: Option<&str>, prefix: Seq<char>, env: Seq<(String, String)>, key: Seq<char>, r: Result<Option<String>, String>) -> bool {
    file_toml is None && plain_defaults(defaults) && plain_env(prefix, env) && plain_key(key)
        ==> text_lookup_view(r) == Ok::<Option<Seq<char>>, Seq<char>>(unfiled_text(defaults, prefix, env, key))
}

/// With plain defaults and an environment that sets top-level settings
/// only, a plain key that a variable names has that variable's value
/// whatever the file holds, unless the layers fail to build.
pub open spec fn env_text_wins(defaults: Seq<(String, String)>, prefix: Seq<char>, env: Seq<(String, String)>, key: Seq<char>, r: Result<Option<String>, String>) -> bool {
    plain_defaults(defaults) && plain_env(prefix, env) && plain_key(key)
        ==> (env_value(prefix, env, key) matches Some(v) ==> (r is Err || text_lookup_view(r) == Ok::<Option<Seq<char>>, Seq<char>>(Some(v))))
}

/// The decimal text of a number.
pub open spec fn number_text(n: u64) -> Seq<char> {
    crate::text::decimal(n as nat)
}

/// As [`unfiled_text_wins`], for numbers: a key whose value is the decimal
/// text of a number has that number, and a key with no value has none.
pub open spec fn unfiled_number_wins(defaults: Seq<(String, String)>, file_toml: Option<&str>, prefix: Seq<char>, env: Seq<(String, String)>, key: Seq<char>, r: Result<Option<u64>, String>) -> bool {
    &&& file_toml is None && plain_defaults(defaults) && plain_env(prefix, env) && plain_key(key)
        && unfiled_text(defaults, prefix, env, key) is None ==> r == Ok::<Option<u64>, String>(None)
    &&& forall|n: u64| file_toml is None && plain_defaults(defaults) && plain_env(prefix, env) && plain_key(key)
        && unfiled_text(defaults, prefix, env, key) == Some(#[trigger] number_text(n)) ==> r == Ok::<Option<u64>, String>(Some(n))
}

/// As [`env_text_wins`], for numbers: a key that a variable sets to the
/// decimal text of a number has that number whatever the file holds, unless
/// the layers fail to build.
pub open spec fn env_number_wins(defaults: Seq<(String, String)>, prefix: Seq<char>, env: Seq<(String, String)>, key: Seq<char>, r: Result<Option<u64>, String>) -> bool {
    forall|n: u64| plain_defaults(defaults) && plain_env(prefix, env) && plain_key(key)
        && env_value(prefix, env, key) == Some(#[trigger] number_text(n)) ==> (r is Err || r == Ok::<Option<u64>, String>(Some(n)))
}

/// `config::Config::builder()` with the string `defaults` set, the TOML
/// text `file_toml` added where there is one, and each variable of `env`
/// added in turn as an environment source of its own with prefix
/// `env_prefix` and separator `__`, so that a later variable wins over an
/// earlier one; then `build()` and `get_string(key)`, a missing key taken as
/// nothing.
///
/// The contract names the result where it does not hang on the order in
/// which the crate walks its hash maps (the defaults map, and the tables of
/// the file, whose keys the crate lower-cases and splits at dots): with
/// plain defaults and a file whose keys are bare and lower-case. It also
/// claims what the crate does where there is no file: the defaults are set
/// as strings, an environment source lower-cases a variable's name, takes
/// the prefix and `__` off it and turns each further `__` into a dot, and
/// sets the value as a string, over whatever an earlier layer set there;
/// `get_string` gives a string back as it is. What a file sets is left to
/// the name.
#[verifier::external_body]
pub(crate) fn layered_string(
    defaults: &Vec<(String, String)>,
    file_toml: Option<&str>,
    env_prefix: &str,
    env: &Vec<(String, String)>,
    key: &str,
) -> (r: Result<Option<String>, String>)
    ensures
        settled_layers(defaults@, opt_text_view(file_toml))
            ==> text_lookup_view(r) == layered_text(text_pairs(defaults@), opt_text_view(file_toml), env_prefix@, text_pairs(env@), key@),
        unfiled_text_wins(defaults@, file_toml, env_prefix@, env@, key@, r),
        env_text_wins(defaults@, env_prefix@, env@, key@, r),
{
    let mut b = Config::builder();
    for (k, v) in defaults {
        b = b.set_default(k, v.clone()).map_err(|e| e.to_string())?;
    }
    if let Some(t) = file_toml {
        b = b.add_source(File::from_str(t, FileFormat::Toml));
    }
    for p in env {
        b = b.add_source(Environment::with_prefix(env_prefix).separator("__").source(Some([p.clone()].into())));
    }
    match b.build().map_err(|e| e.to_string())?.get_string(key) {
        Ok(s) => Ok(Some(s)),
        Err(ConfigError::NotFound(_)) => Ok(None),
        Err(e) => Err(e.to_string()),
    }
}

/// As [`layered_string`], with `get::<u64>(key)` in place of `get_string`.
/// The contract claims that a key whose value is the decimal text of a
/// number has that number (a string converts to an unsigned integer by
/// `str::parse`): where there is no file, and where a variable sets it; and
/// that without a file a key with no value has none.
#[verifier::external_body]
pub(crate) fn layered_u64(
    defaults: &Vec<(String, String)>,
    file_toml: Option<&str>,
    env_prefix: &str,
    env: &Vec<(String, String)>,
    key: &str,
) -> (r: Result<Option<u64>, String>)
    ensures
        settled_layers(defaults@, opt_text_view(file_toml))
            ==> number_lookup_view(r) == layered_unsigned(text_pairs(defaults@), opt_text_view(file_toml), env_prefix@, text_pairs(env@), key@),
        unfiled_number_wins(defaults@, file_toml, env_prefix@, env@, key@, r),
        env_number_wins(defaults@, env_prefix@, env@, key@, r),
{
    let mut b = Config::builder();
    for (k, v) in defaults {
        b = b.set_default(k, v.clone()).map_err(|e| e.to_string())?;
    }
    if let Some(t) = file_toml {
        b = b.add_source(File::from_str(t, FileFormat::Toml));
    }
    for p in env {
        b = b.add_source(Environment::with_prefix(env_prefix).separator("__").source(Some([p.clone()].into())));
    }
    match b.build().map_err(|e| e.to_string())?.get::<u64>(key) {
        Ok(n) => Ok(Some(n)),
        Err(ConfigError::NotFound(_)) => Ok(None),
        Err(e) => Err(e.to_string()),
    }
}

/// A required setting: its value, or an error where no layer sets it.
pub open spec fn required_view(r: Result<Option<Seq<char>>, Seq<char>>, key: Seq<char>) -> Result<Seq<char>, Seq<char>> {
    match r {
        Ok(Some(v)) => Ok(v),
        Ok(None) => Err("missing field `"@ + key + "`"@),
        Err(e) => Err(e),
    }
}

/// A required text setting: its value, or an error where no layer sets it.
pub fn required(r: Result<Option<String>, String>, key: &str) -> (v: Result<String, String>)
    ensures
        text_result_view(v) == required_view(text_lookup_view(r), key@),
{
    match r {
        Ok(Some(s)) => Ok(s),
        Ok(None) => {
            let mut e = "missing field `".to_string();
            e.append(key);
            e.append("`");
            proof {
                broadcast use vstd::string::group_string_axioms;
            }
            Err(e)
        },
        Err(e) => Err(e),
    }
}

/// A required number setting: its value, or an error where no layer sets it.
pub open spec fn required_number_view(r: Result<Option<u64>, Seq<char>>, key: Seq<char>) -> Result<u64, Seq<char>> {
    match r {
        Ok(Some(v)) => Ok(v),
        Ok(None) => Err("missing field `"@ + key + "`"@),
        Err(e) => Err(e),
    }
}

/// A required number setting: its value, or an error where no layer sets it.
pub fn required_number(r: Result<Option<u64>, String>, key: &str) -> (v: Result<u64, String>)
    ensures
        match v {
            Ok(n) => required_number_view(number_lookup_view(r), key@) == Ok::<u64, Seq<char>>(n),
            Err(e) => required_number_view(number_lookup_view(r), key@) == Err::<u64, Seq<char>>(e@),
        },
{
    match r {
        Ok(Some(n)) => Ok(n),
        Ok(None) => {
            let mut e = "missing field `".to_string();
            e.append(key);
            e.append("`");
            proof {
                broadcast use vstd::string::group_string_axioms;
            }
            Err(e)
        },
        Err(e) => Err(e),
    }
}

} // verus!
