use rustored::restore::postgres::{restore_failed_message, restore_postgres};
use rustored::restore::qdrant::{health_check_outcome, health_url};
use rustored::targets::elasticsearch_target::{check_http_url, ElasticsearchRestoreTarget};
use rustored::targets::postgres_target::PostgresRestoreTarget;
use rustored::targets::qdrant_target::QdrantRestoreTarget;
use rustored::ui::models::{ElasticsearchConfig, PostgresConfig, QdrantConfig};

fn pg(host: Option<&str>, port: Option<u16>, db: Option<&str>) -> PostgresConfig {
    PostgresConfig {
        host: host.map(|s| s.to_string()),
        port,
        username: Some("u".to_string()),
        password: None,
        use_ssl: false,
        db_name: db.map(|s| s.to_string()),
    }
}

#[test]
fn postgres_target() {
    let t = PostgresRestoreTarget { config: pg(Some("h"), Some(1), Some("d")) };
    assert_eq!(t.name(), "PostgreSQL");
    assert!(t.is_configured());
    assert_eq!(t.required_fields(), vec!["host", "port", "database"]);
    let req = t.connection_request().unwrap();
    assert_eq!(req.host, "h");
    assert_eq!(req.port, 1);
    assert_eq!(
        PostgresRestoreTarget::connection_test_outcome(&req, Ok(())),
        Ok("Successfully connected to PostgreSQL at h:1".to_string())
    );
    assert_eq!(
        PostgresRestoreTarget::connection_test_outcome(&req, Err("no".to_string())),
        Err("Failed to connect to PostgreSQL: no".to_string())
    );
    let t = PostgresRestoreTarget { config: pg(None, Some(1), Some("d")) };
    assert!(!t.is_configured());
    assert_eq!(t.connection_request().unwrap_err(), "PostgreSQL host not specified");
    let t = PostgresRestoreTarget { config: pg(Some("h"), None, None) };
    assert_eq!(t.connection_request().unwrap_err(), "PostgreSQL port not specified");
    assert_eq!(
        PostgresRestoreTarget::restore_outcome(Ok("db".to_string())),
        Ok("Successfully restored to database: db".to_string())
    );
    assert_eq!(
        PostgresRestoreTarget::restore_outcome(Err("e".to_string())),
        Err("Failed to restore to PostgreSQL: e".to_string())
    );
}

#[test]
fn elasticsearch_target() {
    let t = ElasticsearchRestoreTarget {
        config: ElasticsearchConfig { host: Some("http://es:9200".to_string()), index: Some("i".to_string()) },
    };
    assert_eq!(t.name(), "Elasticsearch");
    assert!(t.is_configured());
    assert_eq!(t.required_fields(), vec!["host", "index"]);
    assert_eq!(t.restore_request(), Ok(("http://es:9200".to_string(), "i".to_string())));
    assert_eq!(t.test_connection(), Ok("Successfully connected to Elasticsearch at http://es:9200".to_string()));
    let bad = ElasticsearchRestoreTarget { config: ElasticsearchConfig { host: Some("es".to_string()), index: None } };
    assert_eq!(bad.test_connection(), Err("Invalid Elasticsearch host URL: es".to_string()));
    assert_eq!(bad.restore_request(), Err("Elasticsearch index not specified".to_string()));
    let none = ElasticsearchRestoreTarget { config: ElasticsearchConfig { host: None, index: None } };
    assert_eq!(none.test_connection(), Err("Elasticsearch host not specified".to_string()));
    assert!(check_http_url("https://x"));
    assert!(!check_http_url("ftp://x"));
    assert_eq!(
        ElasticsearchRestoreTarget::restore_outcome("i", Ok(())),
        Ok("Successfully restored to index: i".to_string())
    );
}

#[test]
fn qdrant_target() {
    let t = QdrantRestoreTarget {
        config: QdrantConfig {
            host: Some("http://q:6333".to_string()),
            collection: Some("c".to_string()),
            api_key: Some("k".to_string()),
        },
    };
    assert_eq!(t.name(), "Qdrant");
    assert!(t.is_configured());
    assert_eq!(t.required_fields(), vec!["host", "collection"]);
    assert_eq!(t.test_connection(), Ok("Successfully connected to Qdrant at http://q:6333 with API key".to_string()));
    assert_eq!(
        t.restore_request(),
        Ok(("http://q:6333".to_string(), "c".to_string(), Some("k".to_string())))
    );
    let t = QdrantRestoreTarget { config: QdrantConfig { host: Some("http://q".to_string()), collection: None, api_key: None } };
    assert_eq!(t.test_connection(), Ok("Successfully connected to Qdrant at http://q".to_string()));
    assert_eq!(t.restore_request(), Err("Qdrant collection not specified".to_string()));
    assert_eq!(
        QdrantRestoreTarget::restore_outcome("c", Err("x".to_string())),
        Err("Failed to restore to Qdrant: x".to_string())
    );
}

#[test]
fn restore_helpers() {
    let cmd = restore_postgres("/tmp/f.sql", "postgres://x");
    assert_eq!(cmd.program, "psql");
    assert_eq!(cmd.args, vec!["postgres://x".to_string(), "-f".to_string(), "/tmp/f.sql".to_string()]);
    assert!(cmd.env.is_empty());
    assert_eq!(restore_failed_message("err"), "Postgres restore failed: err");
    assert_eq!(health_url("http://q:6333"), "http://q:6333/health");
    assert_eq!(health_check_outcome(true), Ok(()));
    assert_eq!(health_check_outcome(false), Err("Qdrant health check failed".to_string()));
}
