use rustored::ui::browser::{select_snapshots, snapshot_file_name, sort_newest_first, DownloadTracker, S3Object, SnapshotBrowser};
use rustored::ui::models::{BackupMetadata, FocusField, InputMode, Key, KeyAction, PopupState, S3Config, Timestamp};

fn ts(secs: i64) -> Timestamp {
    Timestamp { secs, nanos: 0 }
}

fn meta(key: &str, secs: i64) -> BackupMetadata {
    BackupMetadata { key: key.to_string(), size: 1024 * 1024 * 10, last_modified: ts(secs) }
}

fn obj(key: Option<&str>, size: Option<i64>, secs: Option<i64>) -> S3Object {
    S3Object { key: key.map(|k| k.to_string()), size, last_modified: secs.map(ts) }
}

fn s3() -> S3Config {
    S3Config {
        bucket: "b".to_string(),
        region: "r".to_string(),
        prefix: "backups/".to_string(),
        endpoint_url: String::new(),
        access_key_id: String::new(),
        secret_access_key: String::new(),
        path_style: false,
        error_message: None,
        test_s3_button: false,
    }
}

#[test]
fn test_backup_metadata() {
    let backup = meta("test-snapshot-1.sql.gz", 1672574400);
    let copy = backup.clone();
    assert_eq!(copy, backup);
    assert_eq!(copy.size, 10485760);
}

#[test]
fn listing_filters_and_defaults() {
    let objects = vec![
        obj(Some("backups/a.dump"), Some(5), Some(100)),
        obj(Some("backups/dir/"), Some(0), Some(200)),
        obj(Some("other/b.dump"), Some(5), Some(300)),
        obj(None, Some(5), Some(400)),
        obj(Some("backups/c.dump"), None, None),
    ];
    let r = select_snapshots(&objects, "backups/", ts(999));
    assert_eq!(r, vec![meta_sized("backups/a.dump", 5, 100), meta_sized("backups/c.dump", 0, 999)]);
}

fn meta_sized(key: &str, size: i64, secs: i64) -> BackupMetadata {
    BackupMetadata { key: key.to_string(), size, last_modified: ts(secs) }
}

#[test]
fn sort_is_newest_first_and_stable() {
    let items = vec![meta("a", 1), meta("b", 3), meta("c", 1), meta("d", 2), meta("e", 3)];
    let keys: Vec<String> = sort_newest_first(items).into_iter().map(|m| m.key).collect();
    assert_eq!(keys, vec!["b", "e", "d", "a", "c"]);
    let later = vec![meta_ns("x", 5, 1), meta_ns("y", 5, 2)];
    let keys: Vec<String> = sort_newest_first(later).into_iter().map(|m| m.key).collect();
    assert_eq!(keys, vec!["y", "x"]);
}

fn meta_ns(key: &str, secs: i64, nanos: u32) -> BackupMetadata {
    BackupMetadata { key: key.to_string(), size: 0, last_modified: Timestamp { secs, nanos } }
}

#[test]
fn parse_listing_into_browser() {
    let mut b = SnapshotBrowser::new(s3());
    b.selected_index = 0;
    b.parse_s3_output(
        vec![obj(Some("backups/old"), Some(1), Some(10)), obj(Some("backups/new"), Some(2), Some(20))],
        ts(0),
    );
    assert_eq!(b.snapshots.len(), 2);
    assert_eq!(b.snapshots[0].key, "backups/new");
    assert_eq!(b.selected_index, 0);
}

#[test]
fn file_names() {
    assert_eq!(snapshot_file_name("backups/2024/db.dump"), "rustored_snapshot_backups_2024_db.dump");
    assert_eq!(snapshot_file_name("plain"), "rustored_snapshot_plain");
}

#[test]
fn download_popups() {
    let mut b = SnapshotBrowser::new(s3());
    let m = meta("backups/a", 1);
    b.begin_download(&m);
    assert_eq!(b.popup_state, PopupState::Downloading(m.clone(), 0, 0));
    b.show_download_progress(&m, 10, 20);
    assert_eq!(b.popup_state, PopupState::Downloading(m.clone(), 10, 20));
    b.finish_download(&m);
    assert_eq!(b.popup_state, PopupState::Success("Download complete: backups/a".to_string()));
    b.fail_download("disk full");
    assert_eq!(b.popup_state, PopupState::Error("Download failed: disk full".to_string()));
}

#[test]
fn download_rate_is_reported_at_most_ten_times_a_second() {
    let mut t = DownloadTracker::new(1000);
    assert_eq!(t.record_chunk(500, 1050), None);
    assert_eq!(t.downloaded, 500);
    assert_eq!(t.record_chunk(1500, 1500), Some(4000));
    assert_eq!(t.last_update_ms, 1500);
    assert_eq!(t.record_chunk(10, 1600), None);
    assert_eq!(t.record_chunk(0, 1601), Some(3344));
}

struct Ui {
    popup: PopupState,
    mode: InputMode,
    buffer: String,
    focus: FocusField,
    s3: S3Config,
}

fn ui() -> Ui {
    Ui { popup: PopupState::Hidden, mode: InputMode::Normal, buffer: String::new(), focus: FocusField::SnapshotList, s3: s3() }
}

fn press(b: &mut SnapshotBrowser, u: &mut Ui, key: Key) -> KeyAction {
    b.handle_key_event(key, &mut u.popup, &mut u.mode, &mut u.buffer, &mut u.focus, &mut u.s3)
}

#[test]
fn browser_keys() {
    let mut b = SnapshotBrowser::new(s3());
    b.snapshots = vec![meta("x", 2), meta("y", 1)];
    let mut u = ui();
    assert_eq!(press(&mut b, &mut u, Key::Down), KeyAction::Continue);
    assert_eq!(b.selected_index, 1);
    press(&mut b, &mut u, Key::Char('j'));
    assert_eq!(b.selected_index, 0);
    press(&mut b, &mut u, Key::Up);
    assert_eq!(b.selected_index, 1);
    assert_eq!(press(&mut b, &mut u, Key::Char('r')), KeyAction::ReloadSnapshots);
    press(&mut b, &mut u, Key::Enter);
    assert_eq!(u.popup, PopupState::ConfirmRestore(meta("y", 1)));
    assert_eq!(press(&mut b, &mut u, Key::Char('y')), KeyAction::Download(meta("y", 1)));
    press(&mut b, &mut u, Key::Char('n'));
    assert_eq!(u.popup, PopupState::Hidden);
    press(&mut b, &mut u, Key::Tab);
    assert_eq!(u.focus, FocusField::Bucket);
    press(&mut b, &mut u, Key::Char('e'));
    assert_eq!(u.mode, InputMode::Editing);
    assert_eq!(u.buffer, "b");
    press(&mut b, &mut u, Key::Char('2'));
    assert_eq!(press(&mut b, &mut u, Key::Enter), KeyAction::ReconnectAndReload);
    assert_eq!(u.s3.bucket, "b2");
    assert_eq!(b.s3_config.bucket, "b2");
    assert_eq!(u.mode, InputMode::Normal);
}

#[test]
fn cancel_download_round_trip() {
    let mut b = SnapshotBrowser::new(s3());
    let mut u = ui();
    let m = meta("x", 1);
    u.popup = PopupState::Downloading(m.clone(), 3, 4);
    press(&mut b, &mut u, Key::Esc);
    assert_eq!(u.popup, PopupState::ConfirmCancel(m.clone(), 3, 4));
    press(&mut b, &mut u, Key::Esc);
    assert_eq!(u.popup, PopupState::Downloading(m.clone(), 3, 4));
    press(&mut b, &mut u, Key::Esc);
    press(&mut b, &mut u, Key::Char('Y'));
    assert_eq!(u.popup, PopupState::Error("Download cancelled".to_string()));
}
