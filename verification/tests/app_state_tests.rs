use rustored::ui::models::{BackupMetadata, FocusField, InputMode, Key, PopupState, RestoreTarget, Timestamp};
use rustored::ui::restore_browser::RestoreBrowser;
use rustored::ui::rustored::{RestoreRequest, RustoredApp};
use rustored::ui::models::PostgresConfig;

fn app() -> RustoredApp {
    RustoredApp::new(
        &Some("bucket".to_string()),
        &Some("eu".to_string()),
        &None,
        &None,
        &Some("AKIAEXAMPLE".to_string()),
        &Some("s3cr3t".to_string()),
        true,
        &Some("db.local".to_string()),
        &Some(5433),
        &Some("bob".to_string()),
        &Some("pw".to_string()),
        false,
        &Some("shop".to_string()),
        &Some("http://es:9200".to_string()),
        &Some("idx".to_string()),
        &None,
    )
}

fn snapshot() -> BackupMetadata {
    BackupMetadata { key: "backups/a.dump".to_string(), size: 3, last_modified: Timestamp { secs: 5, nanos: 0 } }
}

#[test]
fn new_app_state() {
    let a = app();
    assert_eq!(a.focus, FocusField::SnapshotList);
    assert_eq!(a.input_mode, InputMode::Normal);
    assert_eq!(a.popup_state, PopupState::Hidden);
    assert_eq!(a.restore_target, RestoreTarget::Postgres);
    assert_eq!(a.s3_config.prefix, "");
    assert_eq!(a.qdrant_config.host, Some("http://es:9200".to_string()));
    assert_eq!(a.qdrant_config.collection, Some("idx".to_string()));
}

#[test]
fn settings_panels_hide_secrets() {
    let mut a = app();
    let lines = a.s3_settings_lines();
    assert_eq!(
        lines,
        vec![
            "Bucket: bucket",
            "Region: eu",
            "Prefix: ",
            "Endpoint URL: ",
            "Access Key ID: AKIA*******",
            "Secret Access Key: [hidden]",
            "Path Style: true"
        ]
    );
    let rows = a.postgres_settings_rows();
    let texts: Vec<(&str, &str)> = rows.iter().map(|r| (r.label.as_str(), r.value.as_str())).collect();
    assert_eq!(
        texts,
        vec![("Host", "db.local"), ("Port", "5433"), ("Username", "bob"), ("Password", "[hidden]"), ("Database", "shop"), ("Use SSL", "No")]
    );
    a.focus = FocusField::SecretAccessKey;
    a.input_mode = InputMode::Editing;
    a.input_buffer = "typed".to_string();
    assert_eq!(a.s3_settings_lines()[5], "Secret Access Key: typed");
    a.focus = FocusField::PgPassword;
    a.input_buffer = "pw".to_string();
    assert_eq!(a.postgres_settings_rows()[3].value, "pw");
    let es = a.elasticsearch_settings_rows();
    assert_eq!(es[0].value, "http://es:9200");
    assert_eq!(es[1].value, "idx");
    let q = a.qdrant_settings_rows();
    assert_eq!(q[2].value, "");
}

#[test]
fn digit_keys_select_targets() {
    let mut a = app();
    a.handle_key_event(Key::Char('2'));
    assert_eq!(a.restore_target, RestoreTarget::Elasticsearch);
    assert_eq!(a.focus, FocusField::EsHost);
    a.handle_key_event(Key::Char('3'));
    assert_eq!(a.restore_target, RestoreTarget::Qdrant);
    assert_eq!(a.focus, FocusField::EsHost);
    a.handle_key_event(Key::Char('1'));
    assert_eq!(a.restore_target, RestoreTarget::Postgres);
    assert_eq!(a.focus, FocusField::PgHost);
}

#[test]
fn restore_requests() {
    let mut a = app();
    match a.begin_restore(&snapshot()) {
        Ok(RestoreRequest::Postgres(req)) => {
            assert_eq!(req.host, "db.local");
            assert_eq!(req.port, 5433);
        }
        _ => panic!(),
    }
    assert_eq!(a.popup_state, PopupState::Restoring(snapshot(), 0));
    a.restore_target = RestoreTarget::Qdrant;
    a.qdrant_config.collection = None;
    assert_eq!(a.begin_restore(&snapshot()).unwrap_err(), "Qdrant collection not specified");
    assert_eq!(a.finish_restore(&snapshot(), Err("x".to_string())), Err("Restore failed: x".to_string()));
    assert_eq!(a.popup_state, PopupState::Restoring(snapshot(), 100));
    assert_eq!(a.finish_restore(&snapshot(), Ok(())), Ok(()));
}

#[test]
fn restore_browser_checks_settings() {
    let mut rb = RestoreBrowser::new(RestoreTarget::Postgres, None, None, None);
    rb.ensure_postgres_config();
    assert!(rb.postgres_config.is_some());
    let mut rb = RestoreBrowser::new(
        RestoreTarget::Postgres,
        Some(PostgresConfig { host: None, port: Some(1), username: None, password: None, use_ssl: false, db_name: None }),
        None,
        None,
    );
    assert_eq!(rb.begin_restore(&snapshot()).unwrap_err(), "PostgreSQL host is required");
}

#[test]
fn digit_key_keeps_focus_on_target_field() {
    let mut a = app();
    a.focus = FocusField::PgPort;
    a.handle_key_event(Key::Char('1'));
    assert_eq!(a.focus, FocusField::PgPort);
    a.focus = FocusField::EsIndex;
    a.handle_key_event(Key::Char('3'));
    assert_eq!(a.restore_target, RestoreTarget::Qdrant);
    assert_eq!(a.focus, FocusField::EsIndex);
}

#[test]
fn enter_dismisses_message_popups() {
    let mut a = app();
    a.popup_state = PopupState::Success("done".to_string());
    a.handle_key_event(Key::Enter);
    assert_eq!(a.popup_state, PopupState::Hidden);
    a.popup_state = PopupState::TestingPg;
    a.handle_key_event(Key::Char('x'));
    assert_eq!(a.popup_state, PopupState::TestingPg);
}

#[test]
fn cancel_question_returns_to_download() {
    let mut a = app();
    let s = snapshot();
    a.popup_state = PopupState::Downloading(s.clone(), 7, 9);
    a.handle_key_event(Key::Esc);
    assert_eq!(a.popup_state, PopupState::ConfirmCancel(s.clone(), 7, 9));
    a.handle_key_event(Key::Esc);
    assert_eq!(a.popup_state, PopupState::Downloading(s, 7, 9));
    assert_eq!(a.focus, FocusField::SnapshotList);
}

#[test]
fn restoring_popup_ignores_keys() {
    let mut a = app();
    a.popup_state = PopupState::Restoring(snapshot(), 0);
    a.handle_key_event(Key::Esc);
    assert_eq!(a.popup_state, PopupState::Restoring(snapshot(), 0));
}
