//! Settings read from the environment, and the datastore settings of the command line.

use vstd::prelude::*;
use vstd::string::*;
use crate::text::{eq_ignore_ascii_case, lowercases_to_true, pair_texts, parse_u16, parse_u16_spec, str_eq};
pub use crate::ui::models::{PostgresConfig, S3Config};
use crate::ui::models::s3_config::S3ConfigView;
use crate::ui::models::postgres_config::PostgresConfigView;

verus! {

/// The environment variables of the process, as `(name, value)` pairs.
#[derive(Debug)]
pub struct EnvVars {
    pub vars: Vec<(String, String)>,
}

/// The value of variable `key`: that of its first pair.
pub open spec fn env_value(vars: Seq<(Seq<char>, Seq<char>)>, key: Seq<char>) -> Option<Seq<char>>
    decreases vars.len(),
{
    if vars.len() == 0 {
        None
    } else if vars[0].0 == key {
        Some(vars[0].1)
    } else {
        env_value(vars.drop_first(), key)
    }
}

/// The value of variable `key`, or `default` when it is not set.
pub open spec fn env_or(env: EnvVars, key: Seq<char>, default: Seq<char>) -> Seq<char> {
    match env_value(pair_texts(env.vars@), key) {
        Some(v) => v,
        None => default,
    }
}

/// The flag in variable `key`: set when its value reads `true` in any
/// letter case; `default` when it is not set.
pub open spec fn env_flag(env: EnvVars, key: Seq<char>, default: bool) -> bool {
    match env_value(pair_texts(env.vars@), key) {
        Some(v) => eq_ignore_ascii_case(v, seq!['t', 'r', 'u', 'e']),
        None => default,
    }
}

proof fn lemma_env_value_skip(vars: Seq<(Seq<char>, Seq<char>)>, key: Seq<char>, i: int)
    requires
        0 <= i <= vars.len(),
        forall|j: int| 0 <= j < i ==> vars[j].0 != key,
    ensures
        env_value(vars, key) == env_value(vars.skip(i), key),
    decreases i,
{
    if i > 0 {
        assert(vars.drop_first().skip(i - 1) =~= vars.skip(i));
        lemma_env_value_skip(vars.drop_first(), key, i - 1);
    } else {
        assert(vars.skip(0) =~= vars);
    }
}

impl EnvVars {
    /// The value of variable `key`, if it is set.
    pub fn get(&self, key: &str) -> (r: Option<String>)
        ensures
            crate::ui::models::opt_view(r) == env_value(pair_texts(self.vars@), key@),
    {
        let ghost pt = pair_texts(self.vars@);
        let mut i: usize = 0;
        while i < self.vars.len()
            invariant
                i <= self.vars.len(),
                pt == pair_texts(self.vars@),
                forall|j: int| 0 <= j < i ==> pt[j].0 != key@,
            decreases self.vars.len() - i,
        {
            if str_eq(self.vars[i].0.as_str(), key) {
                proof {
                    lemma_env_value_skip(pt, key@, i as int);
                }
                return Some(self.vars[i].1.clone());
            }
            i = i + 1;
        }
        proof {
            lemma_env_value_skip(pt, key@, i as int);
        }
        None
    }
}

/// Get an environment variable, with a default value when it is not set.
pub fn get_env_with_default(env: &EnvVars, key: &str, default: &str) -> (r: String)
    ensures
        r@ == env_or(*env, key@, default@),
{
    match env.get(key) {
        Some(v) => v,
        None => String::from_str(default),
    }
}

/// Get a boolean environment variable: true when its value lower-cases to
/// `true`, the default when it is not set.
pub fn get_env_bool(env: &EnvVars, key: &str, default: bool) -> (r: bool)
    ensures
        r == env_flag(*env, key@, default),
{
    match env.get(key) {
        Some(v) => lowercases_to_true(v.as_str()),
        None => default,
    }
}

/// Load the S3 configuration from the environment.
pub fn load_s3_config(env: &EnvVars) -> (r: S3Config)
    ensures
        r@ == (S3ConfigView {
            bucket: env_or(*env, "S3_BUCKET"@, ""@),
            region: env_or(*env, "S3_REGION"@, "us-west-2"@),
            prefix: env_or(*env, "S3_PREFIX"@, "backups/"@),
            endpoint_url: env_or(*env, "S3_ENDPOINT_URL"@, ""@),
            access_key_id: env_or(*env, "S3_ACCESS_KEY_ID"@, ""@),
            secret_access_key: env_or(*env, "S3_SECRET_ACCESS_KEY"@, ""@),
            path_style: env_flag(*env, "S3_PATH_STYLE"@, true),
            error_message: None,
            test_s3_button: false,
        }),
{
    S3Config {
        bucket: get_env_with_default(env, "S3_BUCKET", ""),
        region: get_env_with_default(env, "S3_REGION", "us-west-2"),
        prefix: get_env_with_default(env, "S3_PREFIX", "backups/"),
        endpoint_url: get_env_with_default(env, "S3_ENDPOINT_URL", ""),
        access_key_id: get_env_with_default(env, "S3_ACCESS_KEY_ID", ""),
        secret_access_key: get_env_with_default(env, "S3_SECRET_ACCESS_KEY", ""),
        path_style: get_env_bool(env, "S3_PATH_STYLE", true),
        error_message: None,
        test_s3_button: false,
    }
}

/// The port in `text`, or 5432 when it does not parse.
pub open spec fn port_or_default(text: Seq<char>) -> u16 {
    match parse_u16_spec(text) {
        Some(p) => p,
        None => 5432,
    }
}

/// Load the PostgreSQL configuration from the environment.
pub fn load_postgres_config(env: &EnvVars) -> (r: PostgresConfig)
    ensures
        r@ == (PostgresConfigView {
            host: Some(env_or(*env, "PG_HOST"@, "localhost"@)),
            port: Some(port_or_default(env_or(*env, "PG_PORT"@, "5432"@))),
            username: Some(env_or(*env, "PG_USERNAME"@, "postgres"@)),
            password: Some(env_or(*env, "PG_PASSWORD"@, ""@)),
            use_ssl: env_flag(*env, "PG_USE_SSL"@, false),
            db_name: Some(env_or(*env, "PG_DB_NAME"@, "postgres"@)),
        }),
{
    let port_text = get_env_with_default(env, "PG_PORT", "5432");
    let port = match parse_u16(port_text.as_str()) {
        Some(p) => p,
        None => 5432,
    };
    PostgresConfig {
        host: Some(get_env_with_default(env, "PG_HOST", "localhost")),
        port: Some(port),
        username: Some(get_env_with_default(env, "PG_USERNAME", "postgres")),
        password: Some(get_env_with_default(env, "PG_PASSWORD", "")),
        use_ssl: get_env_bool(env, "PG_USE_SSL", false),
        db_name: Some(get_env_with_default(env, "PG_DB_NAME", "postgres")),
    }
}

/// TLS options of a datastore connection: whether certificates are
/// verified, and a custom root certificate.
#[derive(Debug, PartialEq)]
pub struct TlsSettings {
    pub verify: bool,
    pub root_cert_path: Option<String>,
}

/// The datastore a snapshot is restored to, as the command line gives it.
#[derive(Debug, PartialEq)]
pub enum DataStoreConfig {
    Postgres { connection_string: String, tls: Option<TlsSettings> },
    ElasticSearch {
        url: String,
        username: Option<String>,
        password: Option<String>,
        tls: Option<TlsSettings>,
    },
    Qdrant { url: String, api_key: Option<String>, tls: Option<TlsSettings> },
}

} // verus!
