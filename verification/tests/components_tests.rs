use rustored::ui::components::{
    modified_text, popup_view, progress_bar_text, progress_text, restore_target_help, restore_target_items, s3_line_look,
    settings_help, size_text, snapshot_row, snapshot_row_look, snapshot_table_header, status_text, target_panel,
    value_look, Look, PopupTone,
};
use rustored::ui::models::{BackupMetadata, FocusField, InputMode, PopupState, RestoreTarget, Timestamp};
use rustored::ui::rustored::RustoredApp;

fn meta() -> BackupMetadata {
    BackupMetadata {
        key: "test-snapshot-1.sql.gz".to_string(),
        size: 1024 * 1024 * 10,
        last_modified: Timestamp { secs: 1672574400, nanos: 0 },
    }
}

fn view(p: PopupState) -> (String, Vec<String>, PopupTone) {
    let v = popup_view(&p).unwrap();
    (v.title, v.lines, v.tone)
}

#[test]
fn test_popup_states() {
    let backup = meta();
    assert!(popup_view(&PopupState::Hidden).is_none());
    assert_eq!(
        view(PopupState::ConfirmRestore(backup.clone())),
        (
            "Confirm Restore".to_string(),
            vec!["Restore snapshot: test-snapshot-1.sql.gz".to_string(), String::new(), "Press 'y' to confirm, 'n' to cancel".to_string()],
            PopupTone::Plain
        )
    );
    let half = 1024 * 1024 * 5;
    assert_eq!(
        view(PopupState::Downloading(backup.clone(), half, 1024 * 1024)).1,
        vec![
            "Downloading: test-snapshot-1.sql.gz".to_string(),
            "Progress: 50.0%".to_string(),
            String::new(),
            "Press Esc to cancel".to_string()
        ]
    );
    let (title, lines, _) = view(PopupState::ConfirmCancel(backup.clone(), half, 1024 * 1024));
    assert_eq!(title, "Confirm Cancel");
    assert_eq!(lines[0], "Cancel download of: test-snapshot-1.sql.gz");
    assert_eq!(lines[3], "Press 'y' to confirm cancel, 'n' to continue downloading");
    assert_eq!(view(PopupState::Error("Test error message".to_string())), ("Error".to_string(), vec!["Test error message".to_string()], PopupTone::Error));
    assert_eq!(
        view(PopupState::Success("Test success message".to_string())),
        ("Success".to_string(), vec!["Test success message".to_string()], PopupTone::Success)
    );
    assert_eq!(view(PopupState::TestingS3).1[0], "Testing connection to S3...");
    assert_eq!(view(PopupState::TestPgResult("ok".to_string())).0, "PostgreSQL Connection Test");
    let (title, lines, _) = view(PopupState::Restoring(backup, 40));
    assert_eq!(title, "Restoring");
    assert_eq!(lines[2], format!("[{}{}] 40.0%", "=".repeat(20), " ".repeat(30)));
}

#[test]
fn progress_texts() {
    assert_eq!(progress_text(0, 1000), "Progress: 0.0%");
    assert_eq!(progress_text(1, 3), "Progress: 33.3%");
    assert_eq!(progress_text(2, 3), "Progress: 66.7%");
    assert_eq!(progress_text(1000, 1000), "Progress: 100.0%");
    assert_eq!(progress_text(5, 0), "Progress: inf%");
    assert_eq!(progress_text(0, 0), "Progress: NaN%");
    assert_eq!(progress_text(1, 16), "Progress: 6.2%");
    assert_eq!(progress_text(3, 16), "Progress: 18.8%");
    assert_eq!(progress_text(1, -4), "Progress: -25.0%");
    for (done, size) in [(1u64, 3i64), (123, 1000), (999, 1000), (7, 9), (10, 10), (1, 16), (3, 16), (5, 0), (0, 0), (1, -4)] {
        let progress = (done as f64 / size as f64) as f32;
        let expected = format!("Progress: {:.1}%", progress * 100.0);
        assert_eq!(progress_text(done, size), expected, "{} of {}", done, size);
    }
    assert_eq!(progress_bar_text(0), format!("[{}] 0.0%", " ".repeat(50)));
    assert_eq!(progress_bar_text(100), format!("[{}] 100.0%", "=".repeat(50)));
    assert_eq!(progress_bar_text(33), format!("[{}{}] 33.0%", "=".repeat(16), " ".repeat(34)));
}

#[test]
fn sizes_match_float_formatting() {
    assert_eq!(size_text(1024 * 1024 * 10), "10.00 MB");
    assert_eq!(size_text(0), "0.00 MB");
    assert_eq!(size_text(131072), "0.12 MB");
    assert_eq!(size_text(3 * 131072), "0.38 MB");
    for size in [1i64, 5000, 131072, 393216, 1048575, 1048576, 1572864, 123456789, 987654321012, 9007199254740992, -1, -5_000_000] {
        assert_eq!(size_text(size), format!("{:.2} MB", size as f64 / 1024.0 / 1024.0), "size {}", size);
    }
}

#[test]
fn dates_are_utc() {
    assert_eq!(modified_text(Timestamp { secs: 1672574400, nanos: 5 }), "2023-01-01 12:00:00");
    assert_eq!(modified_text(Timestamp { secs: 0, nanos: 0 }), "1970-01-01 00:00:00");
    assert_eq!(modified_text(Timestamp { secs: i64::MAX, nanos: 0 }), "1970-01-01 00:00:00");
    let secs = 1_700_000_123;
    let direct = chrono::DateTime::from_timestamp(secs, 0).unwrap().format("%Y-%m-%d %H:%M:%S").to_string();
    assert_eq!(modified_text(Timestamp { secs, nanos: 0 }), direct);
}

#[test]
fn snapshot_table() {
    assert_eq!(snapshot_table_header(), vec!["S3 Path", "Size", "Last Modified"]);
    let mut m = meta();
    m.key = "backups/2023/test-snapshot-1.sql.gz".to_string();
    let row = snapshot_row(&m);
    assert_eq!(row.path, "backups/2023/test-snapshot-1.sql.gz");
    assert_eq!(row.size, "10.00 MB");
    assert_eq!(row.modified, "2023-01-01 12:00:00");
}

#[test]
fn restore_target_list() {
    assert_eq!(
        restore_target_items(RestoreTarget::Elasticsearch, FocusField::Bucket),
        vec![
            ("1. PostgreSQL".to_string(), Look::Plain),
            ("2. Elasticsearch".to_string(), Look::GreenBold),
            ("3. Qdrant".to_string(), Look::Plain)
        ]
    );
    let items = restore_target_items(RestoreTarget::Postgres, FocusField::RestoreTarget);
    assert_eq!(items[0].1, Look::GreenBold);
    assert_eq!(items[1].1, Look::Yellow);
    let help: Vec<String> = restore_target_help().into_iter().map(|(t, _)| t).collect();
    assert_eq!(help.concat(), "Press 1-3 to select restore target type");
    let help: Vec<String> = settings_help().into_iter().map(|(t, _)| t).collect();
    assert_eq!(help.concat(), "↑↓ Navigate [t] Test Connection ");
}

fn app() -> RustoredApp {
    RustoredApp::new(
        &Some("b".to_string()),
        &Some("r".to_string()),
        &None,
        &None,
        &None,
        &None,
        false,
        &Some("h".to_string()),
        &Some(5432),
        &None,
        &None,
        true,
        &Some("d".to_string()),
        &Some("http://es".to_string()),
        &Some("i".to_string()),
        &None,
    )
}

#[test]
fn highlights_follow_focus() {
    let mut a = app();
    a.focus = FocusField::PgSsl;
    assert_eq!(value_look(&a, FocusField::PgSsl), Look::GreenBold);
    assert_eq!(value_look(&a, FocusField::PgDbName), Look::White);
    a.input_mode = InputMode::Editing;
    assert_eq!(value_look(&a, FocusField::PgSsl), Look::YellowBold);
    let rows = a.postgres_settings_rows();
    let highlighted: Vec<&str> =
        rows.iter().filter(|r| value_look(&a, r.field) != Look::White).map(|r| r.label.as_str()).collect();
    assert_eq!(highlighted, vec!["Use SSL"]);
    a.focus = FocusField::Bucket;
    assert_eq!(s3_line_look(&a, FocusField::Bucket), Look::GreenBold);
    a.input_mode = InputMode::Normal;
    assert_eq!(s3_line_look(&a, FocusField::Bucket), Look::Yellow);
    assert_eq!(s3_line_look(&a, FocusField::Region), Look::Plain);
    a.snapshot_browser.selected_index = 2;
    assert_eq!(snapshot_row_look(&a, 2), Look::GreenBold);
    assert_eq!(snapshot_row_look(&a, 0), Look::Plain);
}

#[test]
fn status_and_target_panel() {
    let mut a = app();
    assert_eq!(
        status_text(FocusField::PgHost),
        format!("Press 'q' to quit | Tab to switch focus | 1-3 to change restore target | Current focus: {:?}", FocusField::PgHost)
    );
    assert_eq!(status_text(a.focus), "Press 'q' to quit | Tab to switch focus | 1-3 to change restore target | Current focus: SnapshotList");
    let (title, rows) = target_panel(&a);
    assert_eq!(title, " PostgreSQL Settings ");
    assert_eq!(rows.len(), 6);
    assert_eq!(rows[5].field, FocusField::PgSsl);
    assert_eq!(rows[5].value, "Yes");
    a.restore_target = RestoreTarget::Elasticsearch;
    let (title, rows) = target_panel(&a);
    assert_eq!(title, " Elasticsearch Settings ");
    assert_eq!(rows[1].value, "i");
    a.restore_target = RestoreTarget::Qdrant;
    assert_eq!(target_panel(&a).0, " Qdrant Settings ");
}
