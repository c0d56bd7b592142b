//! Configuration of elan-central.

use vstd::prelude::*;
use crate::assoc::lemma_pairs_map_index;

use crate::text::ascii_text;
use crate::settings::{env_or, env_value, layered_string, layered_text, opt_text_view, plain_defaults, plain_env, plain_key, required, required_view, settled_file, text_pairs};

verus! {

/// Top-level configuration for the elan-central authority service.
#[derive(Debug, Clone)]
pub struct CentralConfig {
    pub grpc_addr: String,
    pub http_addr: String,
    pub database_url: String,
}

impl CentralConfig {
    /// The built-in settings: gRPC on `0.0.0.0:50051`, HTTP on `0.0.0.0:8080`,
    /// the SQLite database `elan_central.db`.
    pub fn default() -> (r: CentralConfig)
        ensures
            r.grpc_addr@ == "0.0.0.0:50051"@,
            r.http_addr@ == "0.0.0.0:8080"@,
            r.database_url@ == "sqlite://elan_central.db"@,
    {
        proof {
            broadcast use vstd::string::group_string_axioms;
        }
        CentralConfig {
            grpc_addr: "0.0.0.0:50051".to_string(),
            http_addr: "0.0.0.0:8080".to_string(),
            database_url: "sqlite://elan_central.db".to_string(),
        }
    }
}

/// The built-in settings, as the configuration layers see them.
pub open spec fn central_default_pairs() -> Seq<(Seq<char>, Seq<char>)> {
    seq![
        ("grpc_addr"@, "0.0.0.0:50051"@),
        ("http_addr"@, "0.0.0.0:8080"@),
        ("database_url"@, "sqlite://elan_central.db"@),
    ]
}

/// The prefix of the environment variables that override the settings.
pub open spec fn central_env_prefix() -> Seq<char> {
    "ELAN_CENTRAL"@
}

/// The layered value of one setting.
pub open spec fn central_setting(file_toml: Option<Seq<char>>, env: Seq<(Seq<char>, Seq<char>)>, key: Seq<char>) -> Result<Seq<char>, Seq<char>> {
    required_view(layered_text(central_default_pairs(), file_toml, central_env_prefix(), env, key), key)
}

/// The settings of elan-central, read in field order: the first one that
/// fails gives the error.
pub open spec fn central_settings(file_toml: Option<Seq<char>>, env: Seq<(Seq<char>, Seq<char>)>) -> Result<(Seq<char>, Seq<char>, Seq<char>), Seq<char>> {
    match central_setting(file_toml, env, "grpc_addr"@) {
        Err(e) => Err(e),
        Ok(g) => match central_setting(file_toml, env, "http_addr"@) {
            Err(e) => Err(e),
            Ok(h) => match central_setting(file_toml, env, "database_url"@) {
                Err(e) => Err(e),
                Ok(d) => Ok((g, h, d)),
            },
        },
    }
}

/// A loaded configuration of elan-central in which every setting that an
/// environment variable names has that variable's value.
pub open spec fn central_env_wins(c: CentralConfig, env: Seq<(String, String)>) -> bool {
    &&& env_value(central_env_prefix(), env, "grpc_addr"@) matches Some(v) ==> c.grpc_addr@ == v
    &&& env_value(central_env_prefix(), env, "http_addr"@) matches Some(v) ==> c.http_addr@ == v
    &&& env_value(central_env_prefix(), env, "database_url"@) matches Some(v) ==> c.database_url@ == v
}

/// The built-in settings as pairs of keys and values.
fn central_defaults() -> (r: Vec<(String, String)>)
    ensures
        text_pairs(r@) == central_default_pairs(),
        plain_defaults(r@),
        r@.len() == 3,
        r@[0].0@ == "grpc_addr"@ && r@[0].1@ == "0.0.0.0:50051"@,
        r@[1].0@ == "http_addr"@ && r@[1].1@ == "0.0.0.0:8080"@,
        r@[2].0@ == "database_url"@ && r@[2].1@ == "sqlite://elan_central.db"@,
{
    proof {
        broadcast use vstd::string::group_string_axioms;
        reveal_strlit("grpc_addr");
        reveal_strlit("http_addr");
        reveal_strlit("database_url");
    }
    let r = vec![
        ("grpc_addr".to_string(), "0.0.0.0:50051".to_string()),
        ("http_addr".to_string(), "0.0.0.0:8080".to_string()),
        ("database_url".to_string(), "sqlite://elan_central.db".to_string()),
    ];
    assert(text_pairs(r@) =~= central_default_pairs());
    assert(r@[0].0@[0] != r@[1].0@[0]);
    assert(r@[0].0@[0] != r@[2].0@[0]);
    assert(r@[1].0@[0] != r@[2].0@[0]);
    assert(plain_defaults(r@));
    r
}

/// Loads the settings of elan-central: the built-in defaults, then the TOML
/// text of the configuration file where there is one, then the environment
/// variables `env` whose names start with `ELAN_CENTRAL__`, a later layer
/// winning over an earlier one: a setting that a variable names has the
/// value of the last such variable, whatever the file holds. Without a
/// file, a setting that no variable names has its default; with neither a
/// file nor such variables the defaults come back.
pub fn load(file_toml: Option<&str>, env: &Vec<(String, String)>) -> (r: Result<CentralConfig, String>)
    ensures
        settled_file(opt_text_view(file_toml)) ==> match r {
            Ok(c) => central_settings(opt_text_view(file_toml), text_pairs(env@)) == Ok::<(Seq<char>, Seq<char>, Seq<char>), Seq<char>>((c.grpc_addr@, c.http_addr@, c.database_url@)),
            Err(e) => central_settings(opt_text_view(file_toml), text_pairs(env@)) == Err::<(Seq<char>, Seq<char>, Seq<char>), Seq<char>>(e@),
        },
        plain_env(central_env_prefix(), env@) && r is Ok ==> central_env_wins(r->Ok_0, env@),
        file_toml is None && plain_env(central_env_prefix(), env@) ==> (r matches Ok(c)
            && c.grpc_addr@ == env_or(central_env_prefix(), env@, "grpc_addr"@, "0.0.0.0:50051"@)
            && c.http_addr@ == env_or(central_env_prefix(), env@, "http_addr"@, "0.0.0.0:8080"@)
            && c.database_url@ == env_or(central_env_prefix(), env@, "database_url"@, "sqlite://elan_central.db"@)),
        file_toml is None && env@.len() == 0 ==> (r matches Ok(c)
            && c.grpc_addr@ == "0.0.0.0:50051"@
            && c.http_addr@ == "0.0.0.0:8080"@
            && c.database_url@ == "sqlite://elan_central.db"@),
{
    let defaults = central_defaults();
    proof {
        lemma_pairs_map_index(defaults@, 0);
        lemma_pairs_map_index(defaults@, 1);
        lemma_pairs_map_index(defaults@, 2);
        assert(plain_key(defaults@[0].0@));
        assert(plain_key(defaults@[1].0@));
        assert(plain_key(defaults@[2].0@));
        reveal_strlit("ELAN_CENTRAL");
        assert(ascii_text(central_env_prefix()));
        if env@.len() == 0 {
            assert(plain_env(central_env_prefix(), env@));
            assert(env_value(central_env_prefix(), env@, "grpc_addr"@) is None);
            assert(env_value(central_env_prefix(), env@, "http_addr"@) is None);
            assert(env_value(central_env_prefix(), env@, "database_url"@) is None);
        }
    }
    let g = required(layered_string(&defaults, file_toml, "ELAN_CENTRAL", env, "grpc_addr"), "grpc_addr");
    let grpc_addr = match g {
        Ok(v) => v,
        Err(e) => return Err(e),
    };
    let h = required(layered_string(&defaults, file_toml, "ELAN_CENTRAL", env, "http_addr"), "http_addr");
    let http_addr = match h {
        Ok(v) => v,
        Err(e) => return Err(e),
    };
    let d = required(layered_string(&defaults, file_toml, "ELAN_CENTRAL", env, "database_url"), "database_url");
    let database_url = match d {
        Ok(v) => v,
        Err(e) => return Err(e),
    };
    Ok(CentralConfig { grpc_addr, http_addr, database_url })
}

} // verus!
