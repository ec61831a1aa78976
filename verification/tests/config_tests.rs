use rustored::config::{get_env_bool, get_env_with_default, load_postgres_config, load_s3_config, EnvVars};

fn env(pairs: &[(&str, &str)]) -> EnvVars {
    EnvVars { vars: pairs.iter().map(|(k, v)| (k.to_string(), v.to_string())).collect() }
}

#[test]
fn env_lookups() {
    let e = env(&[("A", "1"), ("B", "TrUe"), ("A", "2")]);
    assert_eq!(e.get("A"), Some("1".to_string()));
    assert_eq!(e.get("C"), None);
    assert_eq!(get_env_with_default(&e, "A", "x"), "1");
    assert_eq!(get_env_with_default(&e, "C", "x"), "x");
    assert!(get_env_bool(&e, "B", false));
    assert!(!get_env_bool(&e, "A", true));
    assert!(get_env_bool(&e, "C", true));
}

#[test]
fn s3_config_defaults() {
    let c = load_s3_config(&env(&[]));
    assert_eq!(c.bucket, "");
    assert_eq!(c.region, "us-west-2");
    assert_eq!(c.prefix, "backups/");
    assert_eq!(c.endpoint_url, "");
    assert!(c.path_style);
    let c = load_s3_config(&env(&[("S3_BUCKET", "b"), ("S3_PATH_STYLE", "false")]));
    assert_eq!(c.bucket, "b");
    assert!(!c.path_style);
}

#[test]
fn postgres_config_defaults() {
    let c = load_postgres_config(&env(&[]));
    assert_eq!(c.host, Some("localhost".to_string()));
    assert_eq!(c.port, Some(5432));
    assert_eq!(c.username, Some("postgres".to_string()));
    assert_eq!(c.password, Some("".to_string()));
    assert!(!c.use_ssl);
    assert_eq!(c.db_name, Some("postgres".to_string()));
    let c = load_postgres_config(&env(&[("PG_PORT", "6543"), ("PG_USE_SSL", "true")]));
    assert_eq!(c.port, Some(6543));
    assert!(c.use_ssl);
    let c = load_postgres_config(&env(&[("PG_PORT", "not-a-port")]));
    assert_eq!(c.port, Some(5432));
    let c = load_postgres_config(&env(&[("PG_PORT", "70000")]));
    assert_eq!(c.port, Some(5432));
}
