//! What the screen shows, as text: the popups, the rows of the snapshot
//! table, and the list of restore targets.

use vstd::prelude::*;
use vstd::string::*;
use crate::text::{char_of_digit, decimal, digit_char, push_char, repeat_char, texts, u128_to_string};
use crate::ui::models::{BackupMetadata, FocusField, InputMode, PopupState, RestoreTarget, Timestamp, opt_view};
use crate::ui::rustored::{RustoredApp, SettingsRow, row_texts};

verus! {

// ---------------------------------------------------------------------------
// Popups

/// The colour a popup is drawn in.
#[derive(Clone, Copy, Debug, PartialEq, Eq, Structural)]
pub enum PopupTone {
    Plain,
    Error,
    Success,
}

/// A popup as drawn: its title, its lines, and its colour.
#[derive(Debug)]
pub struct PopupView {
    pub title: String,
    pub lines: Vec<String>,
    pub tone: PopupTone,
}

/// `done` bytes of `size` in tenths of a percent, rounded to the nearest,
/// halves to even (as Rust writes a number with one decimal).
pub open spec fn progress_tenths(done: nat, size: nat) -> nat
    recommends
        size > 0,
{
    let q = done * 1000 / size;
    let rem = done * 1000 % size;
    if rem * 2 > size || (rem * 2 == size && q % 2 == 1) {
        q + 1
    } else {
        q
    }
}

/// A number of tenths written with one decimal: `12.3`.
pub open spec fn tenths_text(t: nat) -> Seq<char> {
    decimal(t / 10) + seq!['.', digit_char(t % 10)]
}

/// The progress line of a download popup: the share of the snapshot's size
/// downloaded, in percent with one decimal. A size of 0 gives `inf` once
/// bytes came (`NaN` before), and a negative size a negative share, as the
/// division of the two numbers does.
pub open spec fn progress_line(done: u64, size: i64) -> Seq<char> {
    "Progress: "@ + (if size == 0 {
        if done == 0 {
            "NaN"@
        } else {
            "inf"@
        }
    } else if size < 0 {
        "-"@ + tenths_text(progress_tenths(done as nat, (-size) as nat))
    } else {
        tenths_text(progress_tenths(done as nat, size as nat))
    }) + "%"@
}

/// The cells of the restore progress bar that are filled at `percent`.
pub open spec fn bar_filled(percent: u8) -> nat {
    (50 * (percent as nat) / 100) as nat
}

/// The restore progress bar: fifty cells, `=` for the done part, then the
/// percentage with one decimal.
pub open spec fn progress_bar(percent: u8) -> Seq<char> {
    "["@ + repeat_char('=', bar_filled(percent)) + repeat_char(' ', (50 - bar_filled(percent)) as nat)
        + "] "@ + decimal(percent as nat) + ".0%"@
}

/// Title, lines and colour of the popup for a state (none when hidden).
pub open spec fn popup_view_spec(p: PopupState) -> Option<(Seq<char>, Seq<Seq<char>>, PopupTone)> {
    match p {
        PopupState::Hidden => None,
        PopupState::ConfirmRestore(s) => Some((
            "Confirm Restore"@,
            seq!["Restore snapshot: "@ + s.key@, Seq::empty(), "Press 'y' to confirm, 'n' to cancel"@],
            PopupTone::Plain,
        )),
        PopupState::Downloading(s, done, _) => Some((
            "Downloading"@,
            seq![
                "Downloading: "@ + s.key@,
                progress_line(done, s.size),
                Seq::empty(),
                "Press Esc to cancel"@,
            ],
            PopupTone::Plain,
        )),
        PopupState::ConfirmCancel(s, done, _) => Some((
            "Confirm Cancel"@,
            seq![
                "Cancel download of: "@ + s.key@,
                progress_line(done, s.size),
                Seq::empty(),
                "Press 'y' to confirm cancel, 'n' to continue downloading"@,
            ],
            PopupTone::Plain,
        )),
        PopupState::Restoring(s, percent) => Some((
            "Restoring"@,
            seq!["Restoring: "@ + s.key@, Seq::empty(), progress_bar(percent)],
            PopupTone::Plain,
        )),
        PopupState::TestingS3 => Some((
            "S3 Connection Test"@,
            seq!["Testing connection to S3..."@, Seq::empty(), "Please wait"@],
            PopupTone::Plain,
        )),
        PopupState::TestS3Result(m) => Some(("S3 Connection Test"@, seq![m@], PopupTone::Plain)),
        PopupState::TestingPg => Some((
            "PostgreSQL Connection Test"@,
            seq!["Testing connection to PostgreSQL..."@, Seq::empty(), "Please wait"@],
            PopupTone::Plain,
        )),
        PopupState::TestPgResult(m) => Some(("PostgreSQL Connection Test"@, seq![m@], PopupTone::Plain)),
        PopupState::Error(m) => Some(("Error"@, seq![m@], PopupTone::Error)),
        PopupState::Success(m) => Some(("Success"@, seq![m@], PopupTone::Success)),
    }
}

fn text_of(s: &str) -> (r: String)
    ensures
        r@ == s@,
{
    String::from_str(s)
}

fn tenths_string(t: u128) -> (r: String)
    ensures
        r@ == tenths_text(t as nat),
{
    let mut r = u128_to_string(t / 10);
    push_char(&mut r, '.');
    let d = char_of_digit((t % 10) as u8);
    push_char(&mut r, d);
    assert(r@ =~= tenths_text(t as nat));
    r
}

/// The progress line of a download popup (see [`progress_line`]).
pub fn progress_text(done: u64, size: i64) -> (r: String)
    ensures
        r@ == progress_line(done, size),
{
    let mut r = text_of("Progress: ");
    if size == 0 {
        if done == 0 {
            r.append("NaN");
        } else {
            r.append("inf");
        }
    } else {
        let n: u128 = if size < 0 {
            r.append("-");
            (0 - (size as i128)) as u128
        } else {
            size as u128
        };
        let num: u128 = (done as u128) * 1000;
        let q: u128 = num / n;
        let rem: u128 = num % n;
        let t: u128 = if rem * 2 > n || (rem * 2 == n && q % 2 == 1) {
            q + 1
        } else {
            q
        };
        let tt = tenths_string(t);
        r.append(tt.as_str());
    }
    r.append("%");
    r
}

/// The restore progress bar (see [`progress_bar`]); the bar has room for
/// up to 101%.
pub fn progress_bar_text(percent: u8) -> (r: String)
    requires
        percent <= 101,
    ensures
        r@ == progress_bar(percent),
{
    let filled: u64 = 50 * (percent as u64) / 100;
    let mut r = text_of("[");
    let mut i: u64 = 0;
    while i < 50
        invariant
            i <= 50,
            filled == bar_filled(percent),
            filled <= 50,
            r@ == "["@ + (if i <= filled {
                repeat_char('=', i as nat)
            } else {
                repeat_char('=', filled as nat) + repeat_char(' ', (i - filled) as nat)
            }),
        decreases 50 - i,
    {
        if i < filled {
            push_char(&mut r, '=');
            assert(repeat_char('=', (i + 1) as nat) =~= repeat_char('=', i as nat).push('='));
        } else {
            push_char(&mut r, ' ');
            assert(repeat_char(' ', (i + 1 - filled) as nat) =~= repeat_char(' ', (i - filled) as nat).push(' '));
            assert(repeat_char(' ', 0) =~= Seq::<char>::empty());
        }
        i = i + 1;
    }
    r.append("] ");
    let p = u128_to_string(percent as u128);
    r.append(p.as_str());
    r.append(".0%");
    assert(r@ =~= progress_bar(percent));
    r
}

/// The popup for a state, as drawn (see [`popup_view_spec`]); none when hidden.
pub fn popup_view(p: &PopupState) -> (r: Option<PopupView>)
    requires
        p is Restoring ==> p->Restoring_1 <= 101,
    ensures
        match popup_view_spec(*p) {
            None => r is None,
            Some((title, lines, tone)) => r is Some && r->Some_0.title@ == title && texts(
                r->Some_0.lines@,
            ) == lines && r->Some_0.tone == tone,
        },
{
    let (title, lines, tone): (String, Vec<String>, PopupTone) = match p {
        PopupState::Hidden => {
            return None;
        },
        PopupState::ConfirmRestore(s) => {
            let mut head = text_of("Restore snapshot: ");
            head.append(s.key.as_str());
            (text_of("Confirm Restore"), vec![head, String::new(), text_of("Press 'y' to confirm, 'n' to cancel")], PopupTone::Plain)
        },
        PopupState::Downloading(s, done, _) => {
            let mut head = text_of("Downloading: ");
            head.append(s.key.as_str());
            (
                text_of("Downloading"),
                vec![head, progress_text(*done, s.size), String::new(), text_of("Press Esc to cancel")],
                PopupTone::Plain,
            )
        },
        PopupState::ConfirmCancel(s, done, _) => {
            let mut head = text_of("Cancel download of: ");
            head.append(s.key.as_str());
            (
                text_of("Confirm Cancel"),
                vec![
                    head,
                    progress_text(*done, s.size),
                    String::new(),
                    text_of("Press 'y' to confirm cancel, 'n' to continue downloading"),
                ],
                PopupTone::Plain,
            )
        },
        PopupState::Restoring(s, percent) => {
            let mut head = text_of("Restoring: ");
            head.append(s.key.as_str());
            (text_of("Restoring"), vec![head, String::new(), progress_bar_text(*percent)], PopupTone::Plain)
        },
        PopupState::TestingS3 => (
            text_of("S3 Connection Test"),
            vec![text_of("Testing connection to S3..."), String::new(), text_of("Please wait")],
            PopupTone::Plain,
        ),
        PopupState::TestS3Result(m) => (text_of("S3 Connection Test"), vec![m.clone()], PopupTone::Plain),
        PopupState::TestingPg => (
            text_of("PostgreSQL Connection Test"),
            vec![text_of("Testing connection to PostgreSQL..."), String::new(), text_of("Please wait")],
            PopupTone::Plain,
        ),
        PopupState::TestPgResult(m) => (text_of("PostgreSQL Connection Test"), vec![m.clone()], PopupTone::Plain),
        PopupState::Error(m) => (text_of("Error"), vec![m.clone()], PopupTone::Error),
        PopupState::Success(m) => (text_of("Success"), vec![m.clone()], PopupTone::Success),
    };
    proof {
        assert(texts(lines@) =~= popup_view_spec(*p)->Some_0.1);
    }
    Some(PopupView { title, lines, tone })
}

// ---------------------------------------------------------------------------
// The snapshot table

/// The size in hundredths of a mebibyte of `n` bytes, rounded to the
/// nearest, halves to even (as Rust writes a float with two decimals).
pub open spec fn mb_hundredths(n: nat) -> nat {
    let q = n * 100 / 1048576;
    let rem = n * 100 % 1048576;
    if rem * 2 > 1048576 || (rem * 2 == 1048576 && q % 2 == 1) {
        q + 1
    } else {
        q
    }
}

/// A number of hundredths written with two decimals: `10.05`.
pub open spec fn hundredths_text(h: nat) -> Seq<char> {
    decimal(h / 100) + seq!['.', digit_char(h / 10 % 10), digit_char(h % 10)]
}

/// The size column of a snapshot: its size in MB with two decimals.
pub open spec fn size_text_spec(size: i64) -> Seq<char> {
    if size < 0 {
        "-"@ + hundredths_text(mb_hundredths((-size) as nat)) + " MB"@
    } else {
        hundredths_text(mb_hundredths(size as nat)) + " MB"@
    }
}

fn hundredths_string(h: u128) -> (r: String)
    ensures
        r@ == hundredths_text(h as nat),
{
    let mut r = u128_to_string(h / 100);
    push_char(&mut r, '.');
    let d1 = char_of_digit((h / 10 % 10) as u8);
    push_char(&mut r, d1);
    let d2 = char_of_digit((h % 10) as u8);
    push_char(&mut r, d2);
    assert(r@ =~= hundredths_text(h as nat));
    r
}

/// The size column of a snapshot (see [`size_text_spec`]).
pub fn size_text(size: i64) -> (r: String)
    ensures
        r@ == size_text_spec(size),
{
    let n: u128 = if size < 0 {
        (0 - (size as i128)) as u128
    } else {
        size as u128
    };
    let num: u128 = n * 100;
    let q: u128 = num / 1048576;
    let rem: u128 = num % 1048576;
    let h: u128 = if rem * 2 > 1048576 || (rem * 2 == 1048576 && q % 2 == 1) {
        q + 1
    } else {
        q
    };
    let body = hundredths_string(h);
    let mut r = if size < 0 {
        text_of("-")
    } else {
        String::new()
    };
    r.append(body.as_str());
    r.append(" MB");
    r
}

/// What chrono writes for the UTC time `secs` seconds after the epoch with
/// the format `pattern`; none for a time chrono cannot represent.
pub uninterp spec fn chrono_utc_text(secs: i64, pattern: Seq<char>) -> Option<Seq<char>>;

/// The UTC time `secs` seconds after the epoch, written with the strftime
/// format `pattern` by chrono (`DateTime::<Utc>::from_timestamp`, then
/// `format`). Trusted: the text is named by [`chrono_utc_text`] over both
/// arguments; chrono gives none for a time out of its range. Nothing is
/// stated of the text itself. Only the table's date format is admitted:
/// chrono's `to_string` panics on a format it cannot write.
#[verifier::external_body]
fn utc_text(secs: i64, pattern: &str) -> (r: Option<String>)
    requires
        pattern@ == "%Y-%m-%d %H:%M:%S"@,
    ensures
        opt_view(r) == chrono_utc_text(secs, pattern@),
{
    match chrono::DateTime::from_timestamp(secs, 0) {
        Some(t) => Some(t.format(pattern).to_string()),
        None => None,
    }
}

/// The date column of a snapshot: its modification time in UTC as
/// `YYYY-MM-DD HH:MM:SS` (the seconds; the epoch when out of range).
pub open spec fn modified_text_spec(t: Timestamp) -> Seq<char> {
    match chrono_utc_text(t.secs, "%Y-%m-%d %H:%M:%S"@) {
        Some(text) => text,
        None => "1970-01-01 00:00:00"@,
    }
}

/// The date column of a snapshot (see [`modified_text_spec`]).
pub fn modified_text(t: Timestamp) -> (r: String)
    ensures
        r@ == modified_text_spec(t),
{
    match utc_text(t.secs, "%Y-%m-%d %H:%M:%S") {
        Some(text) => text,
        None => text_of("1970-01-01 00:00:00"),
    }
}

/// The header of the snapshot table.
pub fn snapshot_table_header() -> (r: Vec<String>)
    ensures
        texts(r@) == seq!["S3 Path"@, "Size"@, "Last Modified"@],
{
    let r = vec![text_of("S3 Path"), text_of("Size"), text_of("Last Modified")];
    assert(texts(r@) =~= seq!["S3 Path"@, "Size"@, "Last Modified"@]);
    r
}

/// One row of the snapshot table: the full S3 path, the size and the date.
#[derive(Debug, PartialEq)]
pub struct SnapshotRow {
    pub path: String,
    pub size: String,
    pub modified: String,
}

/// The row of the snapshot table for `m`.
pub fn snapshot_row(m: &BackupMetadata) -> (r: SnapshotRow)
    ensures
        r.path@ == m.key@,
        r.size@ == size_text_spec(m.size),
        r.modified@ == modified_text_spec(m.last_modified),
{
    SnapshotRow { path: m.key.clone(), size: size_text(m.size), modified: modified_text(m.last_modified) }
}

// ---------------------------------------------------------------------------
// Highlighting and help lines

/// How a piece of text is drawn: its colour, and whether it is bold.
#[derive(Clone, Copy, Debug, PartialEq, Eq, Structural)]
pub enum Look {
    Plain,
    White,
    Blue,
    Yellow,
    YellowBold,
    GreenBold,
}

fn is_editing(m: InputMode) -> (r: bool)
    ensures
        r == (m == InputMode::Editing),
{
    match m {
        InputMode::Editing => true,
        InputMode::Normal => false,
    }
}

/// The look of an S3 settings line: a focused line is yellow, or green and
/// bold while it is edited (the path style line is only ever yellow);
/// other lines are plain.
pub open spec fn s3_line_look_spec(focus: FocusField, mode: InputMode, f: FocusField) -> Look {
    if focus != f {
        Look::Plain
    } else if f != FocusField::PathStyle && mode == InputMode::Editing {
        Look::GreenBold
    } else {
        Look::Yellow
    }
}

/// The look of the S3 settings line of `f` (see [`s3_line_look_spec`]).
pub fn s3_line_look(app: &RustoredApp, f: FocusField) -> (r: Look)
    ensures
        r == s3_line_look_spec(app.focus, app.input_mode, f),
{
    if app.focus != f {
        Look::Plain
    } else if f != FocusField::PathStyle && is_editing(app.input_mode) {
        Look::GreenBold
    } else {
        Look::Yellow
    }
}

/// The look of the value cell of a settings table row for field `f`: the
/// focused field's value is bold, yellow while it is edited and green
/// otherwise; every other value is white.
pub open spec fn value_look_spec(focus: FocusField, mode: InputMode, f: FocusField) -> Look {
    if focus != f {
        Look::White
    } else if mode == InputMode::Editing {
        Look::YellowBold
    } else {
        Look::GreenBold
    }
}

/// The look of the value cell of the row for `f` (see [`value_look_spec`]).
pub fn value_look(app: &RustoredApp, f: FocusField) -> (r: Look)
    ensures
        r == value_look_spec(app.focus, app.input_mode, f),
{
    if app.focus != f {
        Look::White
    } else if is_editing(app.input_mode) {
        Look::YellowBold
    } else {
        Look::GreenBold
    }
}

/// The look of a settings table's labels.
pub fn label_look() -> (r: Look)
    ensures
        r == Look::Blue,
{
    Look::Blue
}

/// The entries of the restore target list, numbered, with their looks: the
/// selected target green and bold; the others yellow while the list has
/// the focus, plain otherwise.
pub open spec fn restore_target_items_spec(t: RestoreTarget, focus: FocusField) -> Seq<(Seq<char>, Look)> {
    let other = if focus == FocusField::RestoreTarget {
        Look::Yellow
    } else {
        Look::Plain
    };
    seq![
        ("1. PostgreSQL"@, if t == RestoreTarget::Postgres { Look::GreenBold } else { other }),
        ("2. Elasticsearch"@, if t == RestoreTarget::Elasticsearch { Look::GreenBold } else { other }),
        ("3. Qdrant"@, if t == RestoreTarget::Qdrant { Look::GreenBold } else { other }),
    ]
}

/// The entries of the restore target list (see [`restore_target_items_spec`]).
pub fn restore_target_items(t: RestoreTarget, focus: FocusField) -> (r: Vec<(String, Look)>)
    ensures
        r@.map_values(|e: (String, Look)| (e.0@, e.1)) == restore_target_items_spec(t, focus),
{
    let other = if focus == FocusField::RestoreTarget {
        Look::Yellow
    } else {
        Look::Plain
    };
    let pick = |selected: bool| -> (l: Look)
        ensures
            l == (if selected { Look::GreenBold } else { other }),
        {
            if selected {
                Look::GreenBold
            } else {
                other
            }
        };
    let r = vec![
        (text_of("1. PostgreSQL"), pick(t == RestoreTarget::Postgres)),
        (text_of("2. Elasticsearch"), pick(t == RestoreTarget::Elasticsearch)),
        (text_of("3. Qdrant"), pick(t == RestoreTarget::Qdrant)),
    ];
    assert(r@.map_values(|e: (String, Look)| (e.0@, e.1)) =~= restore_target_items_spec(t, focus));
    r
}

/// The help line at the bottom of the restore target list, as pieces with their looks.
pub fn restore_target_help() -> (r: Vec<(String, Look)>)
    ensures
        r@.map_values(|e: (String, Look)| (e.0@, e.1)) == seq![
            ("Press "@, Look::Plain),
            ("1-3"@, Look::Yellow),
            (" to select restore target type"@, Look::Plain),
        ],
{
    let r = vec![
        (text_of("Press "), Look::Plain),
        (text_of("1-3"), Look::Yellow),
        (text_of(" to select restore target type"), Look::Plain),
    ];
    assert(r@.map_values(|e: (String, Look)| (e.0@, e.1)) =~= seq![
        ("Press "@, Look::Plain),
        ("1-3"@, Look::Yellow),
        (" to select restore target type"@, Look::Plain),
    ]);
    r
}

/// The help line at the bottom of a restore target's settings panel, as
/// pieces with their looks.
pub fn settings_help() -> (r: Vec<(String, Look)>)
    ensures
        r@.map_values(|e: (String, Look)| (e.0@, e.1)) == seq![
            ("↑↓"@, Look::Yellow),
            (" Navigate "@, Look::Plain),
            ("[t]"@, Look::Yellow),
            (" Test Connection "@, Look::Plain),
        ],
{
    let r = vec![
        (text_of("↑↓"), Look::Yellow),
        (text_of(" Navigate "), Look::Plain),
        (text_of("[t]"), Look::Yellow),
        (text_of(" Test Connection "), Look::Plain),
    ];
    assert(r@.map_values(|e: (String, Look)| (e.0@, e.1)) =~= seq![
        ("↑↓"@, Look::Yellow),
        (" Navigate "@, Look::Plain),
        ("[t]"@, Look::Yellow),
        (" Test Connection "@, Look::Plain),
    ]);
    r
}

/// The look of the snapshot table's frame: yellow while the list has the focus.
pub fn snapshot_list_look(app: &RustoredApp) -> (r: Look)
    ensures
        r == (if app.focus == FocusField::SnapshotList { Look::Yellow } else { Look::Plain }),
{
    if app.focus == FocusField::SnapshotList {
        Look::Yellow
    } else {
        Look::Plain
    }
}

/// The look of the snapshot table's header.
pub fn snapshot_header_look() -> (r: Look)
    ensures
        r == Look::YellowBold,
{
    Look::YellowBold
}

/// The look of the snapshot table's row `i`: the selected snapshot green and
/// bold, the others plain.
pub fn snapshot_row_look(app: &RustoredApp, i: usize) -> (r: Look)
    ensures
        r == (if i == app.snapshot_browser.selected_index { Look::GreenBold } else { Look::Plain }),
{
    if i == app.snapshot_browser.selected_index {
        Look::GreenBold
    } else {
        Look::Plain
    }
}

// ---------------------------------------------------------------------------
// The main screen

/// The name of a focus field as the status line shows it.
pub open spec fn focus_name(f: FocusField) -> Seq<char> {
    match f {
        FocusField::Bucket => "Bucket"@,
        FocusField::Region => "Region"@,
        FocusField::Prefix => "Prefix"@,
        FocusField::EndpointUrl => "EndpointUrl"@,
        FocusField::AccessKeyId => "AccessKeyId"@,
        FocusField::SecretAccessKey => "SecretAccessKey"@,
        FocusField::PathStyle => "PathStyle"@,
        FocusField::PgHost => "PgHost"@,
        FocusField::PgPort => "PgPort"@,
        FocusField::PgUsername => "PgUsername"@,
        FocusField::PgPassword => "PgPassword"@,
        FocusField::PgSsl => "PgSsl"@,
        FocusField::PgDbName => "PgDbName"@,
        FocusField::SnapshotList => "SnapshotList"@,
        FocusField::RestoreTarget => "RestoreTarget"@,
        FocusField::EsHost => "EsHost"@,
        FocusField::EsIndex => "EsIndex"@,
        FocusField::QdrantApiKey => "QdrantApiKey"@,
    }
}

fn focus_name_text(f: FocusField) -> (r: String)
    ensures
        r@ == focus_name(f),
{
    match f {
        FocusField::Bucket => text_of("Bucket"),
        FocusField::Region => text_of("Region"),
        FocusField::Prefix => text_of("Prefix"),
        FocusField::EndpointUrl => text_of("EndpointUrl"),
        FocusField::AccessKeyId => text_of("AccessKeyId"),
        FocusField::SecretAccessKey => text_of("SecretAccessKey"),
        FocusField::PathStyle => text_of("PathStyle"),
        FocusField::PgHost => text_of("PgHost"),
        FocusField::PgPort => text_of("PgPort"),
        FocusField::PgUsername => text_of("PgUsername"),
        FocusField::PgPassword => text_of("PgPassword"),
        FocusField::PgSsl => text_of("PgSsl"),
        FocusField::PgDbName => text_of("PgDbName"),
        FocusField::SnapshotList => text_of("SnapshotList"),
        FocusField::RestoreTarget => text_of("RestoreTarget"),
        FocusField::EsHost => text_of("EsHost"),
        FocusField::EsIndex => text_of("EsIndex"),
        FocusField::QdrantApiKey => text_of("QdrantApiKey"),
    }
}

/// The status line at the bottom of the screen.
pub fn status_text(f: FocusField) -> (r: String)
    ensures
        r@ == "Press 'q' to quit | Tab to switch focus | 1-3 to change restore target | Current focus: "@
            + focus_name(f),
{
    let mut r = text_of("Press 'q' to quit | Tab to switch focus | 1-3 to change restore target | Current focus: ");
    let name = focus_name_text(f);
    r.append(name.as_str());
    r
}

/// The settings panel of the selected restore target: its title and rows.
pub fn target_panel(app: &RustoredApp) -> (r: (String, Vec<SettingsRow>))
    ensures
        match app.restore_target {
            RestoreTarget::Postgres => r.0@ == " PostgreSQL Settings "@ && row_texts(r.1@) == crate::ui::rustored::postgres_rows_spec(*app),
            RestoreTarget::Elasticsearch => r.0@ == " Elasticsearch Settings "@ && row_texts(r.1@)
                == crate::ui::rustored::elasticsearch_rows_spec(*app),
            RestoreTarget::Qdrant => r.0@ == " Qdrant Settings "@ && row_texts(r.1@) == crate::ui::rustored::qdrant_rows_spec(*app),
        },
{
    match app.restore_target {
        RestoreTarget::Postgres => (text_of(" PostgreSQL Settings "), app.postgres_settings_rows()),
        RestoreTarget::Elasticsearch => (text_of(" Elasticsearch Settings "), app.elasticsearch_settings_rows()),
        RestoreTarget::Qdrant => (text_of(" Qdrant Settings "), app.qdrant_settings_rows()),
    }
}

} // verus!
