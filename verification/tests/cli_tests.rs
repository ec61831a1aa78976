use rustored::cli::Opt;
use rustored::config::DataStoreConfig;

fn opt(ds_type: &str) -> Opt {
    Opt {
        bucket: "b".to_string(),
        prefix: None,
        region: None,
        access_key_id: "id".to_string(),
        secret_access_key: "key".to_string(),
        ds_type: ds_type.to_string(),
        ds_postgres_conn: None,
        ds_es_url: None,
        ds_es_user: None,
        ds_es_pass: None,
        ds_qdrant_url: None,
        ds_qdrant_api: None,
    }
}

#[test]
fn into_configs_postgres() {
    let mut opt = opt("postgres");
    opt.ds_postgres_conn = Some("db".to_string());
    let (s3, ds) = opt.into_configs().unwrap();
    assert_eq!(s3.bucket, "b");
    if let DataStoreConfig::Postgres { connection_string, .. } = ds {
        assert_eq!(connection_string, "db");
    } else {
        panic!();
    }
}

#[test]
fn into_configs_es() {
    let mut opt = opt("elasticsearch");
    opt.ds_es_url = Some("u".to_string());
    let (_, ds) = opt.into_configs().unwrap();
    if let DataStoreConfig::ElasticSearch { url, .. } = ds {
        assert_eq!(url, "u");
    } else {
        panic!();
    }
}

#[test]
fn into_configs_qdrant() {
    let mut opt = opt("qdrant");
    opt.ds_qdrant_url = Some("u".to_string());
    let (_, ds) = opt.into_configs().unwrap();
    if let DataStoreConfig::Qdrant { url, .. } = ds {
        assert_eq!(url, "u");
    } else {
        panic!();
    }
}

#[test]
fn into_configs_missing_settings() {
    assert_eq!(opt("postgres").into_configs().unwrap_err(), "Missing DS_POSTGRES_CONN");
    assert_eq!(opt("elasticsearch").into_configs().unwrap_err(), "Missing DS_ES_URL");
    assert_eq!(opt("qdrant").into_configs().unwrap_err(), "Missing DS_QDRANT_URL");
    assert_eq!(opt("mysql").into_configs().unwrap_err(), "Unsupported DS_TYPE");
}

#[test]
fn into_configs_s3_defaults() {
    let mut o = opt("qdrant");
    o.ds_qdrant_url = Some("u".to_string());
    o.ds_qdrant_api = Some("k".to_string());
    o.region = Some("eu-west-1".to_string());
    let (s3, ds) = o.into_configs().unwrap();
    assert_eq!(s3.region, "eu-west-1");
    assert_eq!(s3.prefix, "");
    assert_eq!(s3.endpoint_url, "");
    assert!(!s3.path_style);
    assert_eq!(s3.access_key_id, "id");
    assert_eq!(s3.secret_access_key, "key");
    if let DataStoreConfig::Qdrant { api_key, tls, .. } = ds {
        assert_eq!(api_key, Some("k".to_string()));
        assert!(tls.is_none());
    } else {
        panic!();
    }
}
