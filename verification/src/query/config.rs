//! Configuration of elan-query.

use vstd::prelude::*;
use crate::assoc::lemma_pairs_map_index;
use crate::json::text_pairs_map;
use crate::text::ascii_text;
use crate::settings::{env_or, env_value, layered_string, layered_text, layered_u64, layered_unsigned, number_text, opt_text_view, plain_defaults, plain_env, plain_key, required, required_number, required_number_view, required_view, settled_file, text_pairs, unfiled_text};
use crate::text::decimal;

verus! {

/// Top-level configuration for elan-query.
#[derive(Debug, Clone)]
pub struct QueryConfig {
    pub http_addr: String,
    pub central_endpoint: String,
    pub kafka_brokers: Option<String>,
    pub instance_name: String,
    pub iam_refresh_secs: u64,
}

impl QueryConfig {
    /// The built-in settings: HTTP on `0.0.0.0:3000`, elan-central at
    /// `http://localhost:50051`, no Kafka, instance `query-node-1`, IAM
    /// refresh every 60 seconds.
    pub fn default() -> (r: QueryConfig)
        ensures
            r.http_addr@ == "0.0.0.0:3000"@,
            r.central_endpoint@ == "http://localhost:50051"@,
            r.kafka_brokers is None,
            r.instance_name@ == "query-node-1"@,
            r.iam_refresh_secs == 60,
    {
        proof {
            broadcast use vstd::string::group_string_axioms;
        }
        QueryConfig {
            http_addr: "0.0.0.0:3000".to_string(),
            central_endpoint: "http://localhost:50051".to_string(),
            kafka_brokers: None,
            instance_name: "query-node-1".to_string(),
            iam_refresh_secs: 60,
        }
    }
}

/// The built-in settings, as the configuration layers see them. Kafka has
/// no default.
pub open spec fn query_default_pairs() -> Seq<(Seq<char>, Seq<char>)> {
    seq![
        ("http_addr"@, "0.0.0.0:3000"@),
        ("central_endpoint"@, "http://localhost:50051"@),
        ("instance_name"@, "query-node-1"@),
        ("iam_refresh_secs"@, "60"@),
    ]
}

/// The prefix of the environment variables that override the settings.
pub open spec fn query_env_prefix() -> Seq<char> {
    "ELAN_QUERY"@
}

/// The layered text of one setting.
pub open spec fn query_text(file_toml: Option<Seq<char>>, env: Seq<(Seq<char>, Seq<char>)>, key: Seq<char>) -> Result<Option<Seq<char>>, Seq<char>> {
    layered_text(query_default_pairs(), file_toml, query_env_prefix(), env, key)
}

/// The settings of elan-query as texts and numbers.
pub struct QuerySettingsView {
    pub http_addr: Seq<char>,
    pub central_endpoint: Seq<char>,
    pub kafka_brokers: Option<Seq<char>>,
    pub instance_name: Seq<char>,
    pub iam_refresh_secs: u64,
}

/// The settings of elan-query, read in field order: the first one that
/// fails gives the error. Kafka brokers are optional.
pub open spec fn query_settings(file_toml: Option<Seq<char>>, env: Seq<(Seq<char>, Seq<char>)>) -> Result<QuerySettingsView, Seq<char>> {
    match required_view(query_text(file_toml, env, "http_addr"@), "http_addr"@) {
        Err(e) => Err(e),
        Ok(h) => match required_view(query_text(file_toml, env, "central_endpoint"@), "central_endpoint"@) {
            Err(e) => Err(e),
            Ok(c) => match query_text(file_toml, env, "kafka_brokers"@) {
                Err(e) => Err(e),
                Ok(k) => match required_view(query_text(file_toml, env, "instance_name"@), "instance_name"@) {
                    Err(e) => Err(e),
                    Ok(i) => match required_number_view(
                        layered_unsigned(query_default_pairs(), file_toml, query_env_prefix(), env, "iam_refresh_secs"@),
                        "iam_refresh_secs"@,
                    ) {
                        Err(e) => Err(e),
                        Ok(n) => Ok(QuerySettingsView {
                            http_addr: h,
                            central_endpoint: c,
                            kafka_brokers: k,
                            instance_name: i,
                            iam_refresh_secs: n,
                        }),
                    },
                },
            },
        },
    }
}

/// The view of a loaded configuration.
pub open spec fn query_config_view(c: QueryConfig) -> QuerySettingsView {
    QuerySettingsView {
        http_addr: c.http_addr@,
        central_endpoint: c.central_endpoint@,
        kafka_brokers: match c.kafka_brokers {
            Some(k) => Some(k@),
            None => None,
        },
        instance_name: c.instance_name@,
        iam_refresh_secs: c.iam_refresh_secs,
    }
}

/// The built-in settings as pairs of keys and values.
fn query_defaults() -> (r: Vec<(String, String)>)
    ensures
        text_pairs(r@) == query_default_pairs(),
        plain_defaults(r@),
        r@.len() == 4,
        r@[0].0@ == "http_addr"@ && r@[0].1@ == "0.0.0.0:3000"@,
        r@[1].0@ == "central_endpoint"@ && r@[1].1@ == "http://localhost:50051"@,
        r@[2].0@ == "instance_name"@ && r@[2].1@ == "query-node-1"@,
        r@[3].0@ == "iam_refresh_secs"@ && r@[3].1@ == decimal(60),
        !text_pairs_map(r@).dom().contains("kafka_brokers"@),
{
    proof {
        broadcast use vstd::string::group_string_axioms;
        reveal_strlit("http_addr");
        reveal_strlit("central_endpoint");
        reveal_strlit("instance_name");
        reveal_strlit("iam_refresh_secs");
        reveal_strlit("kafka_brokers");
        reveal_strlit("60");
    }
    let r = vec![
        ("http_addr".to_string(), "0.0.0.0:3000".to_string()),
        ("central_endpoint".to_string(), "http://localhost:50051".to_string()),
        ("instance_name".to_string(), "query-node-1".to_string()),
        ("iam_refresh_secs".to_string(), "60".to_string()),
    ];
    assert(text_pairs(r@) =~= query_default_pairs());
    assert(r@[0].0@[0] != r@[1].0@[0]);
    assert(r@[0].0@[0] != r@[2].0@[0]);
    assert(r@[0].0@[1] != r@[3].0@[1]);
    assert(r@[1].0@[0] != r@[2].0@[0]);
    assert(r@[1].0@[0] != r@[3].0@[0]);
    assert(r@[2].0@[1] != r@[3].0@[1]);
    assert(plain_defaults(r@));
    assert(decimal(60) =~= seq!['6', '0']) by {
        assert(decimal(6) =~= seq!['6']);
    }
    proof {
        crate::iam::engine::lemma_pairs_map_dom(r@, "kafka_brokers"@);
        assert forall|j: int| 0 <= j < r@.len() implies (#[trigger] r@[j]).0@ != "kafka_brokers"@ by {
            assert(r@[j].0@[0] != "kafka_brokers"@[0]);
        }
    }
    r
}

/// A loaded configuration of elan-query where there is no file: each
/// setting the environment's, else its default; `n` the refresh interval.
pub open spec fn query_unfiled(c: QueryConfig, env: Seq<(String, String)>, n: u64) -> bool {
    &&& c.http_addr@ == env_or(query_env_prefix(), env, "http_addr"@, "0.0.0.0:3000"@)
    &&& c.central_endpoint@ == env_or(query_env_prefix(), env, "central_endpoint"@, "http://localhost:50051"@)
    &&& query_config_view(c).kafka_brokers == env_value(query_env_prefix(), env, "kafka_brokers"@)
    &&& c.instance_name@ == env_or(query_env_prefix(), env, "instance_name"@, "query-node-1"@)
    &&& c.iam_refresh_secs == n
}

/// A loaded configuration of elan-query in which every setting that an
/// environment variable names has that variable's value.
pub open spec fn query_env_wins(c: QueryConfig, env: Seq<(String, String)>) -> bool {
    &&& env_value(query_env_prefix(), env, "http_addr"@) matches Some(v) ==> c.http_addr@ == v
    &&& env_value(query_env_prefix(), env, "central_endpoint"@) matches Some(v) ==> c.central_endpoint@ == v
    &&& env_value(query_env_prefix(), env, "kafka_brokers"@) matches Some(v) ==> query_config_view(c).kafka_brokers == Some(v)
    &&& env_value(query_env_prefix(), env, "instance_name"@) matches Some(v) ==> c.instance_name@ == v
    &&& forall|n: u64| env_value(query_env_prefix(), env, "iam_refresh_secs"@) == Some(#[trigger] number_text(n)) ==> c.iam_refresh_secs == n
}

/// Loads the settings of elan-query: the built-in defaults, then the TOML
/// text of the configuration file where there is one, then the environment
/// variables `env` whose names start with `ELAN_QUERY__`, a later layer
/// winning over an earlier one: a setting that a variable names has the
/// value of the last such variable, whatever the file holds. Without a
/// file, a setting that no variable names has its default; with neither a
/// file nor such variables the defaults come back.
pub fn load(file_toml: Option<&str>, env: &Vec<(String, String)>) -> (r: Result<QueryConfig, String>)
    ensures
        settled_file(opt_text_view(file_toml)) ==> match r {
            Ok(c) => query_settings(opt_text_view(file_toml), text_pairs(env@)) == Ok::<QuerySettingsView, Seq<char>>(query_config_view(c)),
            Err(e) => query_settings(opt_text_view(file_toml), text_pairs(env@)) == Err::<QuerySettingsView, Seq<char>>(e@),
        },
        plain_env(query_env_prefix(), env@) && r is Ok ==> query_env_wins(r->Ok_0, env@),
        file_toml is None && plain_env(query_env_prefix(), env@) && env_value(query_env_prefix(), env@, "iam_refresh_secs"@) is None
            ==> (r matches Ok(c) && query_unfiled(c, env@, 60)),
        forall|n: u64| file_toml is None && plain_env(query_env_prefix(), env@)
            && env_value(query_env_prefix(), env@, "iam_refresh_secs"@) == Some(#[trigger] number_text(n))
            ==> (r matches Ok(c) && query_unfiled(c, env@, n)),
        file_toml is None && env@.len() == 0 ==> (r matches Ok(c)
            && c.http_addr@ == "0.0.0.0:3000"@
            && c.central_endpoint@ == "http://localhost:50051"@
            && c.instance_name@ == "query-node-1"@
            && c.iam_refresh_secs == 60),
{
    let defaults = query_defaults();
    proof {
        lemma_pairs_map_index(defaults@, 0);
        lemma_pairs_map_index(defaults@, 1);
        lemma_pairs_map_index(defaults@, 2);
        lemma_pairs_map_index(defaults@, 3);
        reveal_strlit("kafka_brokers");
        assert(plain_key("kafka_brokers"@));
        assert(plain_key(defaults@[0].0@));
        assert(plain_key(defaults@[1].0@));
        assert(plain_key(defaults@[2].0@));
        assert(plain_key(defaults@[3].0@));
        reveal_strlit("ELAN_QUERY");
        assert(ascii_text(query_env_prefix()));
        assert(number_text(60) == decimal(60));
        if env_value(query_env_prefix(), env@, "iam_refresh_secs"@) is None {
            assert(unfiled_text(defaults@, query_env_prefix(), env@, "iam_refresh_secs"@) == Some(number_text(60)));
        }
        if env@.len() == 0 {
            assert(plain_env(query_env_prefix(), env@));
            assert(env_value(query_env_prefix(), env@, "http_addr"@) is None);
            assert(env_value(query_env_prefix(), env@, "central_endpoint"@) is None);
            assert(env_value(query_env_prefix(), env@, "instance_name"@) is None);
            assert(env_value(query_env_prefix(), env@, "iam_refresh_secs"@) is None);
        }
    }
    let h = required(layered_string(&defaults, file_toml, "ELAN_QUERY", env, "http_addr"), "http_addr");
    let http_addr = match h {
        Ok(v) => v,
        Err(e) => return Err(e),
    };
    let c = required(layered_string(&defaults, file_toml, "ELAN_QUERY", env, "central_endpoint"), "central_endpoint");
    let central_endpoint = match c {
        Ok(v) => v,
        Err(e) => return Err(e),
    };
    let kafka_brokers = match layered_string(&defaults, file_toml, "ELAN_QUERY", env, "kafka_brokers") {
        Ok(k) => k,
        Err(e) => return Err(e),
    };
    let i = required(layered_string(&defaults, file_toml, "ELAN_QUERY", env, "instance_name"), "instance_name");
    let instance_name = match i {
        Ok(v) => v,
        Err(e) => return Err(e),
    };
    let n = layered_u64(&defaults, file_toml, "ELAN_QUERY", env, "iam_refresh_secs");
    let iam_refresh_secs = match required_number(n, "iam_refresh_secs") {
        Ok(v) => v,
        Err(e) => return Err(e),
    };
    let r = QueryConfig { http_addr, central_endpoint, kafka_brokers, instance_name, iam_refresh_secs };
    Ok(r)
}

} // verus!
