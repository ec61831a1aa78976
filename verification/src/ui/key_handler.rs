//! What each key press does to the application state, by mode: popups,
//! field editing, and normal navigation.

use vstd::prelude::*;
use vstd::string::*;
use crate::text::{eq_ignore_ascii_case, lowercases_to_true, parse_u16, parse_u16_spec, pop_char, push_char};
use crate::ui::browser::SnapshotBrowser;
use crate::ui::models::{
    ElasticsearchConfig, FocusField, InputMode, Key, KeyAction, PopupState, PostgresConfig,
    QdrantConfig, RestoreTarget, S3Config, es_fields, is_es_field, is_pg_field, is_qdrant_field,
    is_s3_field, pg_fields, qdrant_fields, s3_fields,
};
use crate::ui::models::s3_config::S3ConfigView;
use crate::ui::models::postgres_config::PostgresConfigView;
use crate::ui::models::elasticsearch_config::ElasticsearchConfigView;
use crate::ui::models::qdrant_config::QdrantConfigView;
use crate::ui::rustored::RustoredApp;

verus! {

// ---------------------------------------------------------------------------
// Navigation

/// Where Tab moves the focus: from the S3 settings to the first field of the
/// selected restore target's settings, from those to the snapshot list, and
/// from anywhere else back to the S3 bucket.
pub open spec fn tab_target(f: FocusField, t: RestoreTarget) -> FocusField {
    if is_s3_field(f) {
        match t {
            RestoreTarget::Postgres => FocusField::PgHost,
            RestoreTarget::Elasticsearch => FocusField::EsHost,
            RestoreTarget::Qdrant => FocusField::QdrantApiKey,
        }
    } else if is_pg_field(f) || is_qdrant_field(f) {
        FocusField::SnapshotList
    } else {
        FocusField::Bucket
    }
}

/// The settings panel a field is navigated within by the arrow keys (empty
/// for the snapshot list and the restore target selection).
pub open spec fn settings_group(f: FocusField) -> Seq<FocusField> {
    if is_s3_field(f) {
        s3_fields()
    } else if is_pg_field(f) {
        pg_fields()
    } else if is_es_field(f) {
        es_fields()
    } else if f == FocusField::QdrantApiKey {
        qdrant_fields()
    } else {
        Seq::empty()
    }
}

/// `i` is the first position of `f` in `g`.
pub open spec fn is_first_at(g: Seq<FocusField>, f: FocusField, i: int) -> bool {
    0 <= i < g.len() && g[i] == f && forall|j: int| 0 <= j < i ==> g[j] != f
}

/// The first position of `f` in `g`, or 0 when it does not occur.
pub open spec fn position_in(g: Seq<FocusField>, f: FocusField) -> int {
    if g.contains(f) {
        choose|i: int| is_first_at(g, f, i)
    } else {
        0
    }
}

/// The field after `f` in `g`, wrapping around at the end.
pub open spec fn next_in(g: Seq<FocusField>, f: FocusField) -> FocusField {
    g[(position_in(g, f) + 1) % (g.len() as int)]
}

/// The field before `f` in `g`, wrapping around at the start.
pub open spec fn prev_in(g: Seq<FocusField>, f: FocusField) -> FocusField {
    let p = position_in(g, f);
    g[if p == 0 {
        g.len() - 1
    } else {
        p - 1
    }]
}

/// The list entry after `i`, wrapping around.
pub open spec fn next_index(i: usize, n: usize) -> usize {
    ((i + 1) % (n as int)) as usize
}

/// The list entry before `i`, wrapping around.
pub open spec fn prev_index(i: usize, n: usize) -> usize {
    if i == 0 {
        (n - 1) as usize
    } else {
        (i - 1) as usize
    }
}

/// The application after Tab.
pub open spec fn tab_result(a: RustoredApp) -> RustoredApp {
    RustoredApp { focus: tab_target(a.focus, a.restore_target), ..a }
}

/// The application after Up: the snapshot selection moves up (wrapping) on
/// the snapshot list; elsewhere the focus moves to the previous field of its panel.
pub open spec fn up_result(a: RustoredApp) -> RustoredApp {
    if a.focus == FocusField::SnapshotList {
        if a.snapshot_browser.snapshots.len() == 0 {
            a
        } else {
            RustoredApp {
                snapshot_browser: SnapshotBrowser {
                    selected_index: prev_index(
                        a.snapshot_browser.selected_index,
                        a.snapshot_browser.snapshots.len(),
                    ),
                    ..a.snapshot_browser
                },
                ..a
            }
        }
    } else if settings_group(a.focus).len() == 0 {
        a
    } else {
        RustoredApp { focus: prev_in(settings_group(a.focus), a.focus), ..a }
    }
}

/// The application after Down: the snapshot selection moves down (wrapping)
/// on the snapshot list; elsewhere the focus moves to the next field of its panel.
pub open spec fn down_result(a: RustoredApp) -> RustoredApp {
    if a.focus == FocusField::SnapshotList {
        if a.snapshot_browser.snapshots.len() == 0 {
            a
        } else {
            RustoredApp {
                snapshot_browser: SnapshotBrowser {
                    selected_index: next_index(
                        a.snapshot_browser.selected_index,
                        a.snapshot_browser.snapshots.len(),
                    ),
                    ..a.snapshot_browser
                },
                ..a
            }
        }
    } else if settings_group(a.focus).len() == 0 {
        a
    } else {
        RustoredApp { focus: next_in(settings_group(a.focus), a.focus), ..a }
    }
}

/// The text a field is edited from: its current value in the panel it belongs to.
pub open spec fn edit_text(a: RustoredApp, f: FocusField) -> Seq<char> {
    if is_s3_field(f) {
        a.s3_config@.field_value(f)
    } else if is_pg_field(f) {
        a.pg_config@.field_value(f)
    } else if is_es_field(f) {
        a.es_config@.field_value(f)
    } else if f == FocusField::QdrantApiKey {
        a.qdrant_config@.field_value(f)
    } else {
        Seq::empty()
    }
}

/// Enter in normal mode: on a non-empty snapshot list it asks to confirm
/// the restore of the selected snapshot; on a settings field it starts
/// editing that field's current value.
pub open spec fn enter_post(a: RustoredApp, b: RustoredApp) -> bool {
    if a.focus == FocusField::SnapshotList {
        if a.snapshot_browser.snapshots.len() == 0 {
            b == a
        } else {
            b == RustoredApp {
                popup_state: PopupState::ConfirmRestore(
                    a.snapshot_browser.snapshots@[a.snapshot_browser.selected_index as int],
                ),
                ..a
            }
        }
    } else {
        &&& b == RustoredApp { input_mode: InputMode::Editing, input_buffer: b.input_buffer, ..a }
        &&& b.input_buffer@ == edit_text(a, a.focus)
    }
}

proof fn lemma_first_exists(g: Seq<FocusField>, f: FocusField, k: int)
    requires
        0 <= k < g.len(),
        g[k] == f,
    ensures
        exists|i: int| is_first_at(g, f, i),
    decreases k,
{
    if exists|j: int| 0 <= j < k && g[j] == f {
        let j = choose|j: int| 0 <= j < k && g[j] == f;
        lemma_first_exists(g, f, j);
    } else {
        assert(is_first_at(g, f, k));
    }
}

/// The position of a field lies inside the group, and names the field when it occurs.
proof fn lemma_position_in(g: Seq<FocusField>, f: FocusField)
    requires
        g.len() > 0,
    ensures
        0 <= position_in(g, f) < g.len(),
        g.contains(f) ==> g[position_in(g, f)] == f,
{
    if g.contains(f) {
        let k = choose|k: int| 0 <= k < g.len() && g[k] == f;
        lemma_first_exists(g, f, k);
    }
}

fn group_fields(f: FocusField) -> (r: Vec<FocusField>)
    ensures
        r@ == settings_group(f),
{
    if S3Config::contains_field(f) {
        S3Config::focus_fields()
    } else if PostgresConfig::contains_field(f) {
        PostgresConfig::focus_fields()
    } else if ElasticsearchConfig::contains_field(f) {
        ElasticsearchConfig::focus_fields()
    } else {
        match f {
            FocusField::QdrantApiKey => QdrantConfig::focus_fields(),
            _ => Vec::new(),
        }
    }
}

/// `fields.iter().position(|&x| x == f).unwrap_or(0)`.
fn position_of(fields: &Vec<FocusField>, f: FocusField) -> (r: usize)
    ensures
        r as int == position_in(fields@, f),
{
    let mut i: usize = 0;
    while i < fields.len()
        invariant
            i <= fields.len(),
            forall|j: int| 0 <= j < i ==> fields@[j] != f,
        decreases fields.len() - i,
    {
        if fields[i] == f {
            proof {
                assert(is_first_at(fields@, f, i as int));
                assert(fields@.contains(f));
                let c = choose|k: int| is_first_at(fields@, f, k);
                assert(c == i) by {
                    if c < i {
                        assert(fields@[c] != f);
                    } else if c > i {
                        assert(fields@[i as int] != f);
                    }
                }
            }
            return i;
        }
        i = i + 1;
    }
    assert(!fields@.contains(f));
    0
}

/// Handle Tab: cycle between the settings panels and the snapshot list.
pub fn handle_tab_navigation(app: &mut RustoredApp)
    ensures
        *final(app) == tab_result(*old(app)),
{
    app.focus = if S3Config::contains_field(app.focus) {
        match app.restore_target {
            RestoreTarget::Postgres => FocusField::PgHost,
            RestoreTarget::Elasticsearch => FocusField::EsHost,
            RestoreTarget::Qdrant => FocusField::QdrantApiKey,
        }
    } else if PostgresConfig::contains_field(app.focus) || QdrantConfig::contains_field(app.focus) {
        FocusField::SnapshotList
    } else {
        FocusField::Bucket
    };
}

/// Handle Up: move up the snapshot list, or to the previous field of the panel.
pub fn handle_up_navigation(app: &mut RustoredApp)
    requires
        old(app).wf(),
    ensures
        *final(app) == up_result(*old(app)),
        final(app).wf(),
{
    match app.focus {
        FocusField::SnapshotList => {
            let n = app.snapshot_browser.snapshots.len();
            if n > 0 {
                app.snapshot_browser.selected_index = if app.snapshot_browser.selected_index == 0 {
                    n - 1
                } else {
                    app.snapshot_browser.selected_index - 1
                };
            }
        },
        _ => {
            let fields = group_fields(app.focus);
            if fields.len() > 0 {
                let current = position_of(&fields, app.focus);
                proof {
                    lemma_position_in(fields@, app.focus);
                }
                let prev = if current == 0 {
                    fields.len() - 1
                } else {
                    current - 1
                };
                app.focus = fields[prev];
            }
        },
    }
}

/// Handle Down: move down the snapshot list, or to the next field of the panel.
pub fn handle_down_navigation(app: &mut RustoredApp)
    requires
        old(app).wf(),
    ensures
        *final(app) == down_result(*old(app)),
        final(app).wf(),
{
    match app.focus {
        FocusField::SnapshotList => {
            let n = app.snapshot_browser.snapshots.len();
            if n > 0 {
                app.snapshot_browser.selected_index = (app.snapshot_browser.selected_index + 1) % n;
            }
        },
        _ => {
            let fields = group_fields(app.focus);
            if fields.len() > 0 {
                let current = position_of(&fields, app.focus);
                proof {
                    lemma_position_in(fields@, app.focus);
                }
                let next = (current + 1) % fields.len();
                app.focus = fields[next];
            }
        },
    }
}

/// Handle Enter in normal mode: confirm a restore of the selected snapshot,
/// or start editing the focused field.
pub fn handle_enter_key(app: &mut RustoredApp)
    requires
        old(app).wf(),
    ensures
        enter_post(*old(app), *final(app)),
        final(app).wf(),
{
    match app.focus {
        FocusField::SnapshotList => {
            if app.snapshot_browser.snapshots.len() > 0 {
                let snapshot = app.snapshot_browser.snapshots[app.snapshot_browser.selected_index].clone();
                app.popup_state = PopupState::ConfirmRestore(snapshot);
            }
        },
        _ => {
            app.input_mode = InputMode::Editing;
            let f = app.focus;
            app.input_buffer = if S3Config::contains_field(f) {
                app.s3_config.get_field_value(f)
            } else if PostgresConfig::contains_field(f) {
                app.pg_config.get_field_value(f)
            } else if ElasticsearchConfig::contains_field(f) {
                app.es_config.get_field_value(f)
            } else {
                match f {
                    FocusField::QdrantApiKey => app.qdrant_config.get_field_value(f),
                    _ => String::new(),
                }
            };
        },
    }
}

// ---------------------------------------------------------------------------
// Normal mode

/// The restore target a digit key selects.
pub open spec fn target_of_digit(c: char) -> Option<RestoreTarget> {
    if c == '1' {
        Some(RestoreTarget::Postgres)
    } else if c == '2' {
        Some(RestoreTarget::Elasticsearch)
    } else if c == '3' {
        Some(RestoreTarget::Qdrant)
    } else {
        None
    }
}

/// Is `f` a field of the settings panel of restore target `t`?
pub open spec fn is_target_field(t: RestoreTarget, f: FocusField) -> bool {
    match t {
        RestoreTarget::Postgres => is_pg_field(f),
        RestoreTarget::Elasticsearch => is_es_field(f),
        RestoreTarget::Qdrant => is_qdrant_field(f),
    }
}

/// The first field of the settings panel of restore target `t`.
pub open spec fn first_target_field(t: RestoreTarget) -> FocusField {
    match t {
        RestoreTarget::Postgres => FocusField::PgHost,
        _ => FocusField::EsHost,
    }
}

/// Selecting restore target `t`: its settings panel is shown, and the focus
/// moves to its first field unless it is already on one of its fields.
pub open spec fn select_target_result(a: RustoredApp, t: RestoreTarget) -> RustoredApp {
    RustoredApp {
        restore_target: t,
        focus: if is_target_field(t, a.focus) {
            a.focus
        } else {
            first_target_field(t)
        },
        ..a
    }
}

/// A PostgreSQL connection test needs a host, a port and a database.
pub open spec fn pg_testable(c: PostgresConfigView) -> bool {
    c.host is Some && c.port is Some && c.db_name is Some
}

/// What a key does in normal mode (no popup, no field being edited).
pub open spec fn normal_post(a: RustoredApp, key: Key, b: RustoredApp, r: KeyAction) -> bool {
    match key {
        Key::Char('q') => b == a && r == KeyAction::Quit,
        Key::Char('r') => b == a && r == KeyAction::ReloadSnapshots,
        Key::Char('t') => if is_s3_field(a.focus) {
            b == (RustoredApp { popup_state: PopupState::TestingS3, ..a }) && r
                == KeyAction::TestS3Connection
        } else {
            b == a && r == KeyAction::Continue
        },
        Key::Char('p') => if is_pg_field(a.focus) && pg_testable(a.pg_config@) {
            b == (RustoredApp { popup_state: PopupState::TestingPg, ..a }) && r
                == KeyAction::TestPgConnection
        } else {
            b == a && r == KeyAction::Continue
        },
        Key::Char('e') => r == KeyAction::Continue && if a.focus == FocusField::SnapshotList {
            b == a
        } else {
            enter_post(a, b)
        },
        Key::Char('j') => r == KeyAction::Continue && if a.focus == FocusField::SnapshotList {
            b == down_result(a)
        } else {
            b == a
        },
        Key::Char('k') => r == KeyAction::Continue && if a.focus == FocusField::SnapshotList {
            b == up_result(a)
        } else {
            b == a
        },
        Key::Char(c) => r == KeyAction::Continue && match target_of_digit(c) {
            Some(t) => b == select_target_result(a, t),
            None => b == a,
        },
        Key::Tab => b == tab_result(a) && r == KeyAction::Continue,
        Key::Up => b == up_result(a) && r == KeyAction::Continue,
        Key::Down => b == down_result(a) && r == KeyAction::Continue,
        Key::Enter => enter_post(a, b) && r == KeyAction::Continue,
        _ => b == a && r == KeyAction::Continue,
    }
}

/// Handle a key in normal mode.
pub fn handle_normal_mode(app: &mut RustoredApp, key: Key) -> (r: KeyAction)
    requires
        old(app).wf(),
    ensures
        normal_post(*old(app), key, *final(app), r),
        final(app).wf(),
{
    match key {
        Key::Char('q') => KeyAction::Quit,
        Key::Char('r') => KeyAction::ReloadSnapshots,
        Key::Char('t') => {
            if S3Config::contains_field(app.focus) {
                app.popup_state = PopupState::TestingS3;
                KeyAction::TestS3Connection
            } else {
                KeyAction::Continue
            }
        },
        Key::Char('p') => {
            if PostgresConfig::contains_field(app.focus) && app.pg_config.host.is_some()
                && app.pg_config.port.is_some() && app.pg_config.db_name.is_some() {
                app.popup_state = PopupState::TestingPg;
                KeyAction::TestPgConnection
            } else {
                KeyAction::Continue
            }
        },
        Key::Char('e') => {
            match app.focus {
                FocusField::SnapshotList => {},
                _ => handle_enter_key(app),
            }
            KeyAction::Continue
        },
        Key::Char('j') => {
            match app.focus {
                FocusField::SnapshotList => handle_down_navigation(app),
                _ => {},
            }
            KeyAction::Continue
        },
        Key::Char('k') => {
            match app.focus {
                FocusField::SnapshotList => handle_up_navigation(app),
                _ => {},
            }
            KeyAction::Continue
        },
        Key::Char('1') => {
            app.restore_target = RestoreTarget::Postgres;
            if !PostgresConfig::contains_field(app.focus) {
                app.focus = FocusField::PgHost;
            }
            KeyAction::Continue
        },
        Key::Char('2') => {
            app.restore_target = RestoreTarget::Elasticsearch;
            if !ElasticsearchConfig::contains_field(app.focus) {
                app.focus = FocusField::EsHost;
            }
            KeyAction::Continue
        },
        Key::Char('3') => {
            app.restore_target = RestoreTarget::Qdrant;
            if !QdrantConfig::contains_field(app.focus) {
                app.focus = FocusField::EsHost;
            }
            KeyAction::Continue
        },
        Key::Tab => {
            handle_tab_navigation(app);
            KeyAction::Continue
        },
        Key::Up => {
            handle_up_navigation(app);
            KeyAction::Continue
        },
        Key::Down => {
            handle_down_navigation(app);
            KeyAction::Continue
        },
        Key::Enter => {
            handle_enter_key(app);
            KeyAction::Continue
        },
        _ => KeyAction::Continue,
    }
}

// ---------------------------------------------------------------------------
// Editing mode

/// The S3 settings after an edit of `f` to `v` is saved; the path style is
/// on when the text reads `true` in any letter case.
pub open spec fn s3_apply_edit(c: S3ConfigView, f: FocusField, v: Seq<char>) -> S3ConfigView {
    if f == FocusField::PathStyle {
        S3ConfigView { path_style: eq_ignore_ascii_case(v, seq!['t', 'r', 'u', 'e']), ..c }
    } else {
        c.set_field(f, v)
    }
}

/// The PostgreSQL settings after an edit of `f` to `v` is saved: a port that
/// does not parse leaves the port as it was, and SSL is on when the text
/// reads `true` in any letter case.
pub open spec fn pg_apply_edit(c: PostgresConfigView, f: FocusField, v: Seq<char>) -> PostgresConfigView {
    if f == FocusField::PgPort {
        match parse_u16_spec(v) {
            Some(p) => PostgresConfigView { port: Some(p), ..c },
            None => c,
        }
    } else if f == FocusField::PgSsl {
        PostgresConfigView { use_ssl: eq_ignore_ascii_case(v, seq!['t', 'r', 'u', 'e']), ..c }
    } else {
        c.set_field(f, v)
    }
}

/// The Qdrant settings after an edit of `f` to `v` is saved: only the API key
/// field edits them (the host and collection fields edit the Elasticsearch settings).
pub open spec fn qdrant_apply_edit(c: QdrantConfigView, f: FocusField, v: Seq<char>) -> QdrantConfigView {
    if f == FocusField::QdrantApiKey {
        c.set_field(f, v)
    } else {
        c
    }
}

/// What a key does while a field is being edited.
pub open spec fn editing_post(a: RustoredApp, key: Key, b: RustoredApp, r: KeyAction) -> bool {
    match key {
        Key::Enter => {
            &&& b.s3_config@ == s3_apply_edit(a.s3_config@, a.focus, a.input_buffer@)
            &&& b.pg_config@ == pg_apply_edit(a.pg_config@, a.focus, a.input_buffer@)
            &&& b.es_config@ == a.es_config@.set_field(a.focus, a.input_buffer@)
            &&& b.qdrant_config@ == qdrant_apply_edit(a.qdrant_config@, a.focus, a.input_buffer@)
            &&& b.input_mode == InputMode::Normal
            &&& b.input_buffer == a.input_buffer
            &&& b.focus == a.focus
            &&& b.popup_state == a.popup_state
            &&& b.restore_target == a.restore_target
            &&& if is_s3_field(a.focus) {
                b.snapshot_browser == SnapshotBrowser { s3_config: b.s3_config, ..a.snapshot_browser }
                    && r == KeyAction::ReconnectAndReload
            } else {
                b.snapshot_browser == a.snapshot_browser && r == KeyAction::Continue
            }
        },
        Key::Esc => {
            &&& b == RustoredApp { input_mode: InputMode::Normal, input_buffer: b.input_buffer, ..a }
            &&& b.input_buffer@.len() == 0
            &&& r == KeyAction::Continue
        },
        Key::Backspace => {
            &&& b == RustoredApp { input_buffer: b.input_buffer, ..a }
            &&& b.input_buffer@ == (if a.input_buffer@.len() == 0 {
                a.input_buffer@
            } else {
                a.input_buffer@.drop_last()
            })
            &&& r == KeyAction::Continue
        },
        Key::Char(c) => {
            &&& b == RustoredApp { input_buffer: b.input_buffer, ..a }
            &&& b.input_buffer@ == a.input_buffer@.push(c)
            &&& r == KeyAction::Continue
        },
        _ => b == a && r == KeyAction::Continue,
    }
}

/// Handle a key while a field is being edited: Enter saves the edited text
/// into the focused field, Esc cancels, and other keys edit the text.
pub fn handle_editing_mode(app: &mut RustoredApp, key: Key) -> (r: KeyAction)
    requires
        old(app).wf(),
    ensures
        editing_post(*old(app), key, *final(app), r),
        final(app).wf(),
{
    match key {
        Key::Enter => {
            let f = app.focus;
            let value = app.input_buffer.clone();
            match f {
                FocusField::PathStyle => {
                    app.s3_config.path_style = lowercases_to_true(value.as_str());
                },
                FocusField::PgPort => {
                    match parse_u16(value.as_str()) {
                        Some(p) => app.pg_config.port = Some(p),
                        None => {},
                    }
                },
                FocusField::PgSsl => {
                    app.pg_config.use_ssl = lowercases_to_true(value.as_str());
                },
                FocusField::QdrantApiKey => {
                    app.qdrant_config.set_field_value(f, value);
                },
                _ => {
                    if S3Config::contains_field(f) {
                        app.s3_config.set_field_value(f, value);
                    } else if PostgresConfig::contains_field(f) {
                        app.pg_config.set_field_value(f, value);
                    } else if ElasticsearchConfig::contains_field(f) {
                        app.es_config.set_field_value(f, value);
                    }
                },
            }
            app.input_mode = InputMode::Normal;
            if S3Config::contains_field(f) {
                app.snapshot_browser.s3_config = app.s3_config.clone();
                KeyAction::ReconnectAndReload
            } else {
                KeyAction::Continue
            }
        },
        Key::Esc => {
            app.input_mode = InputMode::Normal;
            app.input_buffer = String::new();
            KeyAction::Continue
        },
        Key::Backspace => {
            let _ = pop_char(&mut app.input_buffer);
            KeyAction::Continue
        },
        Key::Char(c) => {
            push_char(&mut app.input_buffer, c);
            KeyAction::Continue
        },
        _ => KeyAction::Continue,
    }
}

// ---------------------------------------------------------------------------
// Popups

/// Is `c` one of the two letters `lower` / `upper`?
pub open spec fn is_letter(key: Key, lower: char, upper: char) -> bool {
    key == Key::Char(lower) || key == Key::Char(upper)
}

/// What a key does to an open popup, and what it asks for:
/// - a restore confirmation: `y` asks for the download of the snapshot,
///   `n` or Esc closes it;
/// - a cancel confirmation: `y` cancels the download, `n` or Esc resumes it
///   with the progress it had;
/// - a download: Esc asks to confirm cancelling it;
/// - a message (error, success, connection test): Esc or Enter closes it;
/// - other keys, and a restore in progress, leave the popup as it is.
pub open spec fn popup_transition(p: PopupState, key: Key, q: PopupState, r: KeyAction) -> bool {
    match p {
        PopupState::ConfirmRestore(s) => if is_letter(key, 'y', 'Y') {
            q == p && r == KeyAction::Download(s)
        } else if is_letter(key, 'n', 'N') || key == Key::Esc {
            q == PopupState::Hidden && r == KeyAction::Continue
        } else {
            q == p && r == KeyAction::Continue
        },
        PopupState::ConfirmCancel(s, d, rate) => r == KeyAction::Continue && if is_letter(
            key,
            'y',
            'Y',
        ) {
            q is Error && q->Error_0@ == "Download cancelled"@
        } else if is_letter(key, 'n', 'N') || key == Key::Esc {
            q == PopupState::Downloading(s, d, rate)
        } else {
            q == p
        },
        PopupState::Downloading(s, d, rate) => r == KeyAction::Continue && if key == Key::Esc {
            q == PopupState::ConfirmCancel(s, d, rate)
        } else {
            q == p
        },
        PopupState::Restoring(_, _) | PopupState::Hidden => q == p && r == KeyAction::Continue,
        _ => r == KeyAction::Continue && if key == Key::Esc || key == Key::Enter {
            q == PopupState::Hidden
        } else {
            q == p
        },
    }
}

/// What a key does while a popup is open: only the popup changes.
pub open spec fn popup_post(a: RustoredApp, key: Key, b: RustoredApp, r: KeyAction) -> bool {
    &&& b == RustoredApp { popup_state: b.popup_state, ..a }
    &&& popup_transition(a.popup_state, key, b.popup_state, r)
}

/// Handle a key while a popup is shown.
pub fn handle_popup_events(app: &mut RustoredApp, key: Key) -> (r: KeyAction)
    ensures
        popup_post(*old(app), key, *final(app), r),
{
    let yes = match key {
        Key::Char('y') | Key::Char('Y') => true,
        _ => false,
    };
    let no = match key {
        Key::Char('n') | Key::Char('N') | Key::Esc => true,
        _ => false,
    };
    let esc = match key {
        Key::Esc => true,
        _ => false,
    };
    let dismiss = match key {
        Key::Esc | Key::Enter => true,
        _ => false,
    };
    match &app.popup_state {
        PopupState::ConfirmRestore(snapshot) => {
            if yes {
                return KeyAction::Download(snapshot.clone());
            }
            if no {
                app.popup_state = PopupState::Hidden;
            }
            KeyAction::Continue
        },
        PopupState::ConfirmCancel(snapshot, downloaded, rate) => {
            if yes {
                app.popup_state = PopupState::Error(String::from_str("Download cancelled"));
            } else if no {
                app.popup_state = PopupState::Downloading(snapshot.clone(), *downloaded, *rate);
            }
            KeyAction::Continue
        },
        PopupState::Downloading(snapshot, downloaded, rate) => {
            if esc {
                app.popup_state = PopupState::ConfirmCancel(snapshot.clone(), *downloaded, *rate);
            }
            KeyAction::Continue
        },
        PopupState::Restoring(_, _) | PopupState::Hidden => KeyAction::Continue,
        _ => {
            if dismiss {
                app.popup_state = PopupState::Hidden;
            }
            KeyAction::Continue
        },
    }
}

/// What one key press does to the application.
pub open spec fn key_post(a: RustoredApp, key: Key, b: RustoredApp, r: KeyAction) -> bool {
    if a.popup_state != PopupState::Hidden {
        popup_post(a, key, b, r)
    } else if a.input_mode == InputMode::Editing {
        editing_post(a, key, b, r)
    } else {
        normal_post(a, key, b, r)
    }
}


// ---------------------------------------------------------------------------
// Laws

/// Three Tab presses lead from any S3 settings field back to the bucket field,
/// whichever restore target is selected.
pub proof fn law_tab_cycles_back_to_bucket(f: FocusField, t: RestoreTarget)
    requires
        is_s3_field(f),
    ensures
        tab_target(tab_target(tab_target(f, t), t), t) == FocusField::Bucket,
{
}

/// Tab from the snapshot list goes to the bucket field.
pub proof fn law_tab_from_snapshot_list(t: RestoreTarget)
    ensures
        tab_target(FocusField::SnapshotList, t) == FocusField::Bucket,
{
}

proof fn lemma_position_of_index(g: Seq<FocusField>, k: int)
    requires
        0 <= k < g.len(),
        forall|i: int, j: int| 0 <= i < j < g.len() ==> g[i] != g[j],
    ensures
        position_in(g, g[k]) == k,
{
    assert(is_first_at(g, g[k], k));
    assert(g.contains(g[k]));
    let c = choose|i: int| is_first_at(g, g[k], i);
    assert(c == k) by {
        if c < k {
            assert(g[c] != g[k]);
        } else if c > k {
            assert(g[k] != g[c]);
        }
    }
}

proof fn lemma_group_facts(f: FocusField)
    requires
        settings_group(f).len() > 0,
        f != FocusField::QdrantApiKey,
    ensures
        ({
            let g = settings_group(f);
            &&& forall|i: int, j: int| 0 <= i < j < g.len() ==> g[i] != g[j]
            &&& g.contains(f)
            &&& forall|i: int| 0 <= i < g.len() ==> settings_group(#[trigger] g[i]) == g
        }),
{
    let g = settings_group(f);
    if is_s3_field(f) {
        crate::ui::models::s3_config::law_s3_contains_iff_listed(f);
    } else if is_pg_field(f) {
        crate::ui::models::postgres_config::law_pg_contains_iff_listed(f);
    } else {
        assert(g[0] == FocusField::EsHost);
        assert(g[1] == FocusField::EsIndex);
    }
}

proof fn lemma_succ_mod(p: int, n: int)
    requires
        0 <= p < n,
    ensures
        (p + 1) % n == (if p + 1 == n {
            0
        } else {
            p + 1
        }),
{
    if p + 1 == n {
        vstd::arithmetic::div_mod::lemma_mod_self_0(n);
    } else {
        vstd::arithmetic::div_mod::lemma_small_mod((p + 1) as nat, n as nat);
    }
}

proof fn lemma_prev_next(g: Seq<FocusField>, f: FocusField)
    requires
        g.len() > 0,
        g.contains(f),
        forall|i: int, j: int| 0 <= i < j < g.len() ==> g[i] != g[j],
    ensures
        prev_in(g, next_in(g, f)) == f,
        next_in(g, prev_in(g, f)) == f,
{
    lemma_position_in(g, f);
    let p = position_in(g, f);
    let n = g.len() as int;
    let q = (p + 1) % n;
    lemma_position_of_index(g, q);
    let r = if p == 0 {
        n - 1
    } else {
        p - 1
    };
    lemma_position_of_index(g, r);
    lemma_succ_mod(p, n);
    lemma_succ_mod(r, n);
}

/// Up undoes Down and Down undoes Up: on the snapshot list, and within every
/// settings panel but at the Qdrant API key field (Down from there reaches the
/// host field, which Up moves within the Elasticsearch fields).
pub proof fn law_up_and_down_undo_each_other(a: RustoredApp)
    requires
        a.wf(),
        a.focus != FocusField::QdrantApiKey,
    ensures
        up_result(down_result(a)) == a,
        down_result(up_result(a)) == a,
{
    if a.focus == FocusField::SnapshotList {
        let n = a.snapshot_browser.snapshots.len();
        let i = a.snapshot_browser.selected_index;
        if n > 0 {
            lemma_succ_mod(i as int, n as int);
            lemma_succ_mod(prev_index(i, n) as int, n as int);
            assert(prev_index(next_index(i, n), n) == i);
            assert(next_index(prev_index(i, n), n) == i);
            assert(up_result(down_result(a)).snapshot_browser =~= a.snapshot_browser);
            assert(down_result(up_result(a)).snapshot_browser =~= a.snapshot_browser);
        }
    } else if settings_group(a.focus).len() > 0 {
        let g = settings_group(a.focus);
        lemma_group_facts(a.focus);
        lemma_position_in(g, a.focus);
        lemma_prev_next(g, a.focus);
        let p = position_in(g, a.focus);
        let nx = (p + 1) % (g.len() as int);
        assert(settings_group(g[nx]) == g);
        let pv = if p == 0 {
            g.len() - 1
        } else {
            p - 1
        };
        assert(settings_group(g[pv]) == g);
    }
}

/// Down keeps the focus within the settings panel it is in.
pub proof fn law_down_stays_in_panel(f: FocusField)
    requires
        settings_group(f).len() > 0,
    ensures
        settings_group(f).contains(next_in(settings_group(f), f)),
        settings_group(f).contains(prev_in(settings_group(f), f)),
{
    let g = settings_group(f);
    lemma_position_in(g, f);
    let p = position_in(g, f);
    let q = (p + 1) % (g.len() as int);
    assert(g[q] == next_in(g, f));
    let r = if p == 0 {
        g.len() - 1
    } else {
        p - 1
    };
    assert(g[r] == prev_in(g, f));
}

/// Opening a settings field for editing with Enter and cancelling with Esc
/// leaves every setting as it was, back in normal mode with an empty buffer.
pub proof fn law_edit_then_cancel_keeps_settings(
    a: RustoredApp,
    b: RustoredApp,
    c: RustoredApp,
    r1: KeyAction,
    r2: KeyAction,
)
    requires
        a.popup_state == PopupState::Hidden,
        a.input_mode == InputMode::Normal,
        a.focus != FocusField::SnapshotList,
        key_post(a, Key::Enter, b, r1),
        key_post(b, Key::Esc, c, r2),
    ensures
        c == (RustoredApp { input_buffer: c.input_buffer, ..a }),
        c.input_buffer@.len() == 0,
        c.input_mode == InputMode::Normal,
{
}

proof fn lemma_true_text(b: bool)
    ensures
        eq_ignore_ascii_case(crate::text::bool_text(b), seq!['t', 'r', 'u', 'e']) == b,
{
    if !b {
        assert(crate::text::bool_text(b).len() != 4);
    } else {
        let t = crate::text::bool_text(b);
        assert forall|i: int| 0 <= i < t.len() implies crate::text::ascii_lower(#[trigger] t[i])
            == seq!['t', 'r', 'u', 'e'][i] by {}
    }
}

/// Opening a settings field for editing with Enter and saving it unchanged
/// with Enter leaves every setting as it was, when the field holds a value.
pub proof fn law_edit_then_save_unchanged_keeps_settings(
    a: RustoredApp,
    b: RustoredApp,
    c: RustoredApp,
    r1: KeyAction,
    r2: KeyAction,
)
    requires
        a.popup_state == PopupState::Hidden,
        a.input_mode == InputMode::Normal,
        a.focus != FocusField::SnapshotList,
        a.focus == FocusField::PgHost ==> a.pg_config.host is Some,
        a.focus == FocusField::PgUsername ==> a.pg_config.username is Some,
        a.focus == FocusField::PgPassword ==> a.pg_config.password is Some,
        a.focus == FocusField::PgDbName ==> a.pg_config.db_name is Some,
        a.focus == FocusField::EsHost ==> a.es_config.host is Some,
        a.focus == FocusField::EsIndex ==> a.es_config.index is Some,
        a.focus == FocusField::QdrantApiKey ==> a.qdrant_config.api_key is Some,
        key_post(a, Key::Enter, b, r1),
        key_post(b, Key::Enter, c, r2),
    ensures
        c.s3_config@ == a.s3_config@,
        c.pg_config@ == a.pg_config@,
        c.es_config@ == a.es_config@,
        c.qdrant_config@ == a.qdrant_config@,
        c.input_mode == InputMode::Normal,
        c.focus == a.focus,
{
    let f = a.focus;
    crate::ui::models::s3_config::law_s3_set_to_shown_value_is_identity(a.s3_config@, f);
    lemma_true_text(a.s3_config.path_style);
    lemma_true_text(a.pg_config.use_ssl);
    if f == FocusField::PgPort {
        match a.pg_config.port {
            Some(p) => crate::text::law_parse_u16_of_decimal(p),
            None => {},
        }
    }
    if is_pg_field(f) && f != FocusField::PgPort && f != FocusField::PgSsl {
        crate::ui::models::postgres_config::law_pg_set_to_shown_value_is_identity(a.pg_config@, f);
    }
}

/// Esc on a running download asks to confirm cancelling it, and Esc on that
/// question resumes the download with the progress it had.
pub proof fn law_cancel_question_round_trip(
    a: RustoredApp,
    b: RustoredApp,
    c: RustoredApp,
    r1: KeyAction,
    r2: KeyAction,
)
    requires
        a.popup_state is Downloading,
        key_post(a, Key::Esc, b, r1),
        key_post(b, Key::Esc, c, r2),
    ensures
        c == a,
{
}

/// Esc or Enter dismisses every message popup (a connection test, its
/// result, an error or a success) and changes nothing else.
pub proof fn law_escape_dismisses_message_popups(a: RustoredApp, key: Key, b: RustoredApp, r: KeyAction)
    requires
        a.popup_state is TestingS3 || a.popup_state is TestS3Result || a.popup_state is TestingPg
            || a.popup_state is TestPgResult || a.popup_state is Error || a.popup_state is Success,
        key == Key::Esc || key == Key::Enter,
        key_post(a, key, b, r),
    ensures
        b == (RustoredApp { popup_state: PopupState::Hidden, ..a }),
        r == KeyAction::Continue,
{
}

/// Pressing `1`, `2` or `3` (no popup, not editing) selects PostgreSQL,
/// Elasticsearch or Qdrant, and leaves the focus on a field of its settings
/// panel: where it was if it was on one, else on the panel's first field.
pub proof fn law_digit_selects_target(a: RustoredApp, c: char, b: RustoredApp, r: KeyAction)
    requires
        a.popup_state == PopupState::Hidden,
        a.input_mode == InputMode::Normal,
        c == '1' || c == '2' || c == '3',
        key_post(a, Key::Char(c), b, r),
    ensures
        b.restore_target == (if c == '1' {
            RestoreTarget::Postgres
        } else if c == '2' {
            RestoreTarget::Elasticsearch
        } else {
            RestoreTarget::Qdrant
        }),
        is_target_field(b.restore_target, b.focus),
        is_target_field(b.restore_target, a.focus) ==> b.focus == a.focus,
        !is_target_field(b.restore_target, a.focus) ==> b.focus == first_target_field(b.restore_target),
        b == (RustoredApp { restore_target: b.restore_target, focus: b.focus, ..a }),
        r == KeyAction::Continue,
{
}

} // verus!
