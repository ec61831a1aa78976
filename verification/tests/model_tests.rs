use rustored::ui::models::{ElasticsearchConfig, FocusField, InputMode, PostgresConfig, QdrantConfig};

#[test]
fn test_postgres_config() {
    let pg_config = PostgresConfig {
        host: Some("localhost".to_string()),
        port: Some(5432),
        username: Some("postgres".to_string()),
        password: Some("password".to_string()),
        use_ssl: false,
        db_name: Some("postgres".to_string()),
    };
    assert_eq!(pg_config.get_field_value(FocusField::PgHost), "localhost");
    assert_eq!(pg_config.get_field_value(FocusField::PgPort), "5432");
    assert_eq!(pg_config.get_field_value(FocusField::PgUsername), "postgres");
    assert_eq!(pg_config.get_field_value(FocusField::PgPassword), "password");
    assert_eq!(pg_config.get_field_value(FocusField::PgSsl), "false");
    assert_eq!(pg_config.get_field_value(FocusField::PgDbName), "postgres");
    assert_eq!(pg_config.password_display(false), "[hidden]");
}

#[test]
fn test_focus_fields() {
    assert_eq!(format!("{:?}", FocusField::SnapshotList), "SnapshotList");
    assert_eq!(format!("{:?}", FocusField::Bucket), "Bucket");
    assert_eq!(format!("{:?}", FocusField::Region), "Region");
    assert_eq!(format!("{:?}", FocusField::Prefix), "Prefix");
    assert_eq!(format!("{:?}", FocusField::EndpointUrl), "EndpointUrl");
    assert_eq!(format!("{:?}", FocusField::AccessKeyId), "AccessKeyId");
    assert_eq!(format!("{:?}", FocusField::SecretAccessKey), "SecretAccessKey");
    assert_eq!(format!("{:?}", FocusField::PathStyle), "PathStyle");
}

#[test]
fn test_input_modes() {
    assert_eq!(format!("{:?}", InputMode::Normal), "Normal");
    assert_eq!(format!("{:?}", InputMode::Editing), "Editing");
    assert_ne!(InputMode::Normal, InputMode::Editing);
}

#[test]
fn field_labels() {
    assert_eq!(FocusField::Bucket.label(), "Bucket");
    assert_eq!(FocusField::EndpointUrl.label(), "Endpoint URL");
    assert_eq!(FocusField::PgHost.label(), "PostgreSQL Host");
    assert_eq!(FocusField::EsIndex.label(), "Index/Collection");
}

#[test]
fn postgres_fields_set_and_get() {
    let mut c = PostgresConfig::default();
    c.set_field_value(FocusField::PgPort, "6000".to_string());
    assert_eq!(c.port, Some(6000));
    c.set_field_value(FocusField::PgPort, "x".to_string());
    assert_eq!(c.port, None);
    c.set_field_value(FocusField::PgHost, "db".to_string());
    assert_eq!(c.host, Some("db".to_string()));
    c.set_field_value(FocusField::PgSsl, "true".to_string());
    assert!(c.use_ssl);
    c.set_field_value(FocusField::PgSsl, "TRUE".to_string());
    assert!(!c.use_ssl);
    c.set_field_value(FocusField::PgSsl, "1".to_string());
    assert!(c.use_ssl);
    assert!(PostgresConfig::contains_field(FocusField::PgDbName));
    assert!(!PostgresConfig::contains_field(FocusField::Bucket));
    assert_eq!(
        PostgresConfig::focus_fields(),
        vec![
            FocusField::PgHost,
            FocusField::PgPort,
            FocusField::PgUsername,
            FocusField::PgPassword,
            FocusField::PgSsl,
            FocusField::PgDbName
        ]
    );
}

#[test]
fn set_then_get_shows_value() {
    let mut es = ElasticsearchConfig::default();
    es.set_field_value(FocusField::EsIndex, "idx".to_string());
    assert_eq!(es.get_field_value(FocusField::EsIndex), "idx");
    let shown = es.get_field_value(FocusField::EsIndex);
    es.set_field_value(FocusField::EsIndex, shown);
    assert_eq!(es.index, Some("idx".to_string()));
    assert!(ElasticsearchConfig::contains_field(FocusField::EsHost));
    assert_eq!(ElasticsearchConfig::focus_fields(), vec![FocusField::EsHost, FocusField::EsIndex]);

    let mut q = QdrantConfig::default();
    q.set_field_value(FocusField::QdrantApiKey, "k".to_string());
    assert_eq!(q.get_field_value(FocusField::QdrantApiKey), "k");

    let mut pg = PostgresConfig::default();
    pg.set_field_value(FocusField::PgPort, "5433".to_string());
    assert_eq!(pg.get_field_value(FocusField::PgPort), "5433");
    // A port written with a leading zero shows without it.
    pg.set_field_value(FocusField::PgPort, "05433".to_string());
    assert_eq!(pg.get_field_value(FocusField::PgPort), "5433");
    pg.set_field_value(FocusField::PgSsl, "false".to_string());
    assert_eq!(pg.get_field_value(FocusField::PgSsl), "false");
}
