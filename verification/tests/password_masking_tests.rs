use rustored::ui::models::{postgres_config::PostgresConfig, qdrant_config::QdrantConfig};

#[test]
fn test_postgres_password_masking() {
    let mut pg_config = PostgresConfig::default();
    pg_config.password = Some("postgres_password".to_string());

    let is_editing = true;
    let is_not_editing = false;

    let _unused_value = if is_not_editing {
        if pg_config.password.clone().unwrap_or_default().is_empty() {
            "".to_string()
        } else {
            "[hidden]".to_string()
        }
    } else {
        pg_config.password.clone().unwrap_or_default()
    };

    let actual_masked_value = if !is_not_editing {
        pg_config.password.clone().unwrap_or_default()
    } else if pg_config.password.clone().unwrap_or_default().is_empty() {
        "".to_string()
    } else {
        "[hidden]".to_string()
    };

    assert_eq!(actual_masked_value, "postgres_password", "PostgreSQL password should be visible when editing");

    let visible_value = if is_editing {
        pg_config.password.clone().unwrap_or_default()
    } else if pg_config.password.clone().unwrap_or_default().is_empty() {
        "".to_string()
    } else {
        "[hidden]".to_string()
    };

    assert_eq!(visible_value, "postgres_password", "PostgreSQL password should be visible when editing");
}

#[test]
fn test_qdrant_api_key_masking() {
    let mut qdrant_config = QdrantConfig::default();
    qdrant_config.api_key = Some("qdrant_api_key".to_string());

    let is_editing = true;
    let is_not_editing = false;

    let _unused_value = if is_not_editing {
        if qdrant_config.api_key.clone().unwrap_or_default().is_empty() {
            "".to_string()
        } else {
            "[hidden]".to_string()
        }
    } else {
        qdrant_config.api_key.clone().unwrap_or_default()
    };

    let actual_masked_value = if !is_not_editing {
        qdrant_config.api_key.clone().unwrap_or_default()
    } else if qdrant_config.api_key.clone().unwrap_or_default().is_empty() {
        "".to_string()
    } else {
        "[hidden]".to_string()
    };

    assert_eq!(actual_masked_value, "qdrant_api_key", "Qdrant API key should be visible when editing");

    let visible_value = if is_editing {
        qdrant_config.api_key.clone().unwrap_or_default()
    } else if qdrant_config.api_key.clone().unwrap_or_default().is_empty() {
        "".to_string()
    } else {
        "[hidden]".to_string()
    };

    assert_eq!(visible_value, "qdrant_api_key", "Qdrant API key should be visible when editing");
}

#[test]
fn test_empty_password_handling() {
    let mut pg_config = PostgresConfig::default();
    pg_config.password = Some("".to_string());

    let mut qdrant_config = QdrantConfig::default();
    qdrant_config.api_key = Some("".to_string());

    let pg_masked_value = if pg_config.password.clone().unwrap_or_default().is_empty() {
        "".to_string()
    } else {
        "[hidden]".to_string()
    };

    let qdrant_masked_value = if qdrant_config.api_key.clone().unwrap_or_default().is_empty() {
        "".to_string()
    } else {
        "[hidden]".to_string()
    };

    assert_eq!(pg_masked_value, "", "Empty PostgreSQL password should not be masked");
    assert_eq!(qdrant_masked_value, "", "Empty Qdrant API key should not be masked");
}

#[test]
fn password_display_masks_unless_editing() {
    let mut pg_config = PostgresConfig::default();
    pg_config.password = Some("postgres_password".to_string());
    assert_eq!(pg_config.password_display(false), "[hidden]");
    assert_eq!(pg_config.password_display(true), "postgres_password");
    pg_config.password = Some("".to_string());
    assert_eq!(pg_config.password_display(false), "");
    pg_config.password = None;
    assert_eq!(pg_config.password_display(false), "");
}

#[test]
fn api_key_display_masks_unless_editing() {
    let mut qdrant_config = QdrantConfig::default();
    qdrant_config.api_key = Some("qdrant_api_key".to_string());
    assert_eq!(qdrant_config.api_key_display(false), "[hidden]");
    assert_eq!(qdrant_config.api_key_display(true), "qdrant_api_key");
    qdrant_config.api_key = Some("".to_string());
    assert_eq!(qdrant_config.api_key_display(false), "");
}
