//! The S3 snapshot browser: its state, how a bucket listing becomes the
//! snapshot list, downloads, and its own key handling.

use vstd::prelude::*;
use vstd::string::*;
use crate::text::{has_prefix, lowercases_to_true, pop_char, push_char, replace_char, replace_char_spec, ends_with_char, starts_with};
use crate::ui::key_handler::{next_index, popup_transition, prev_index, s3_apply_edit};
use crate::ui::models::{Key, KeyAction};
use crate::ui::models::{
    BackupMetadata, FocusField, InputMode, PopupState, S3Config, Timestamp, not_older, is_not_older,
};

verus! {

broadcast use vstd::seq_lib::group_seq_properties;

/// One object of a bucket listing, with what the listing said of it.
#[derive(Debug)]
pub struct S3Object {
    pub key: Option<String>,
    pub size: Option<i64>,
    pub last_modified: Option<Timestamp>,
}

/// Is a listed object a snapshot? It must have a key that does not end in
/// `/` (a directory-like object) and that starts with the configured prefix.
pub open spec fn is_snapshot_object(o: S3Object, prefix: Seq<char>) -> bool {
    &&& o.key is Some
    &&& !(o.key->Some_0@.len() > 0 && o.key->Some_0@.last() == '/')
    &&& has_prefix(o.key->Some_0@, prefix)
}

/// The metadata of a snapshot object: a missing size counts as 0 and a
/// missing modification time as `now`.
pub open spec fn snapshot_metadata(o: S3Object, now: Timestamp) -> BackupMetadata {
    BackupMetadata {
        key: o.key->Some_0,
        size: match o.size {
            Some(s) => s,
            None => 0,
        },
        last_modified: match o.last_modified {
            Some(t) => t,
            None => now,
        },
    }
}

/// The snapshots of a listing, in listing order.
pub open spec fn listed_snapshots(objects: Seq<S3Object>, prefix: Seq<char>, now: Timestamp) -> Seq<
    BackupMetadata,
> {
    objects.filter(|o: S3Object| is_snapshot_object(o, prefix)).map_values(
        |o: S3Object| snapshot_metadata(o, now),
    )
}

/// The snapshots are ordered newest first.
pub open spec fn newest_first(s: Seq<BackupMetadata>) -> bool {
    forall|i: int, j: int|
        0 <= i < j < s.len() ==> not_older(#[trigger] s[i].last_modified, #[trigger] s[j].last_modified)
}

/// Is a snapshot from time `t`?
pub open spec fn at_time(t: Timestamp) -> spec_fn(BackupMetadata) -> bool {
    |m: BackupMetadata| m.last_modified == t
}

/// The snapshots of `s` from time `t`, in their order in `s`.
pub open spec fn same_time(s: Seq<BackupMetadata>, t: Timestamp) -> Seq<BackupMetadata> {
    s.filter(at_time(t))
}

/// `r` is `s` sorted newest first by a stable sort: ordered newest first,
/// with the snapshots of each modification time in their order in `s`.
pub open spec fn stable_newest_first(r: Seq<BackupMetadata>, s: Seq<BackupMetadata>) -> bool {
    &&& newest_first(r)
    &&& forall|t: Timestamp| #[trigger] same_time(r, t) == same_time(s, t)
}

proof fn lemma_filter_single(m: BackupMetadata, t: Timestamp)
    ensures
        same_time(seq![m], t) == (if m.last_modified == t {
            seq![m]
        } else {
            Seq::<BackupMetadata>::empty()
        }),
{
    reveal_with_fuel(Seq::filter, 2);
    assert(seq![m].drop_last() =~= Seq::<BackupMetadata>::empty());
}

proof fn lemma_same_time_insert(r: Seq<BackupMetadata>, p: int, m: BackupMetadata, t: Timestamp)
    requires
        0 <= p <= r.len(),
        forall|q: int| 0 <= q < p ==> not_older(#[trigger] r[q].last_modified, m.last_modified),
        forall|q: int| p <= q < r.len() ==> !not_older(#[trigger] r[q].last_modified, m.last_modified),
    ensures
        same_time(r.insert(p, m), t) == (if m.last_modified == t {
            same_time(r, t).push(m)
        } else {
            same_time(r, t)
        }),
{
    let a = r.take(p);
    let b = r.skip(p);
    let pred = at_time(t);
    assert(r =~= a + b);
    assert(r.insert(p, m) =~= (a + seq![m]) + b);
    Seq::filter_distributes_over_add(a + seq![m], b, pred);
    Seq::filter_distributes_over_add(a, seq![m], pred);
    Seq::filter_distributes_over_add(a, b, pred);
    lemma_filter_single(m, t);
    if m.last_modified == t {
        assert(b.all(|x: BackupMetadata| !pred(x))) by {
            assert forall|k: int| 0 <= k < b.len() implies !pred(#[trigger] b[k]) by {
                assert(b[k] == r[p + k]);
            }
        }
        b.lemma_all_neg_filter_empty(pred);
        assert(b.filter(pred) =~= Seq::<BackupMetadata>::empty());
        assert(same_time(r, t) =~= a.filter(pred));
    }
}

/// Every snapshot of a listing is a file under the prefix: its key starts
/// with the prefix and does not end in `/`. Missing sizes count as 0.
pub proof fn law_listed_snapshots_are_files_under_prefix(
    objects: Seq<S3Object>,
    prefix: Seq<char>,
    now: Timestamp,
    i: int,
)
    requires
        0 <= i < listed_snapshots(objects, prefix, now).len(),
    ensures
        ({
            let key = listed_snapshots(objects, prefix, now)[i].key@;
            &&& has_prefix(key, prefix)
            &&& !(key.len() > 0 && key.last() == '/')
        }),
        exists|j: int|
            0 <= j < objects.len() && #[trigger] objects[j].key == Some(
                listed_snapshots(objects, prefix, now)[i].key,
            ),
{
    let pred = |o: S3Object| is_snapshot_object(o, prefix);
    let kept = objects.filter(pred);
    objects.lemma_filter_pred(pred, i);
    assert(kept.contains(kept[i]));
    objects.lemma_filter_contains_rev(pred, kept[i]);
    let j = choose|j: int| 0 <= j < objects.len() && objects[j] == kept[i];
    assert(objects[j].key == Some(listed_snapshots(objects, prefix, now)[i].key));
}

/// Every file of a listing under the prefix becomes a snapshot: an object
/// whose key starts with the prefix and does not end in `/` is listed, with
/// its size (0 when missing) and its time (`now` when missing).
pub proof fn law_listing_keeps_every_file_under_prefix(
    objects: Seq<S3Object>,
    prefix: Seq<char>,
    now: Timestamp,
    j: int,
)
    requires
        0 <= j < objects.len(),
        objects[j].key is Some,
        prefix.len() <= objects[j].key->Some_0@.len(),
        objects[j].key->Some_0@.subrange(0, prefix.len() as int) == prefix,
        !(objects[j].key->Some_0@.len() > 0 && objects[j].key->Some_0@.last() == '/'),
    ensures
        listed_snapshots(objects, prefix, now).contains(
            BackupMetadata {
                key: objects[j].key->Some_0,
                size: match objects[j].size {
                    Some(n) => n,
                    None => 0,
                },
                last_modified: match objects[j].last_modified {
                    Some(t) => t,
                    None => now,
                },
            },
        ),
{
    let pred = |o: S3Object| is_snapshot_object(o, prefix);
    let f = |o: S3Object| snapshot_metadata(o, now);
    assert(pred(objects[j]));
    objects.lemma_filter_contains(pred, j);
    let kept = objects.filter(pred);
    let k = choose|k: int| 0 <= k < kept.len() && kept[k] == objects[j];
    assert(kept.map_values(f)[k] == f(objects[j]));
}

/// A listing sorted newest first is in order of time: an earlier snapshot
/// in the list is never from an earlier second than a later one, and within
/// one second never from an earlier nanosecond.
pub proof fn law_newest_first_is_time_order(r: Seq<BackupMetadata>, s: Seq<BackupMetadata>, i: int, j: int)
    requires
        stable_newest_first(r, s),
        0 <= i < j < r.len(),
    ensures
        r[i].last_modified.secs >= r[j].last_modified.secs,
        r[i].last_modified.secs == r[j].last_modified.secs ==> r[i].last_modified.nanos
            >= r[j].last_modified.nanos,
{
    assert(not_older(r[i].last_modified, r[j].last_modified));
}

/// The browser's snapshots after a listing are in order of time, newest first.
pub proof fn law_parse_s3_output_newest_first(
    b: SnapshotBrowser,
    objects: Seq<S3Object>,
    prefix: Seq<char>,
    now: Timestamp,
    i: int,
    j: int,
)
    requires
        stable_newest_first(b.snapshots@, listed_snapshots(objects, prefix, now)),
        0 <= i < j < b.snapshots@.len(),
    ensures
        b.snapshots@[i].last_modified.secs >= b.snapshots@[j].last_modified.secs,
{
    law_newest_first_is_time_order(b.snapshots@, listed_snapshots(objects, prefix, now), i, j);
}

/// Tab in the snapshot browser visits every S3 field in display order: from
/// the snapshot list to the first field, from each field to the next, and
/// from the last field back to the snapshot list.
pub proof fn law_browser_tab_visits_s3_fields_in_order(i: int)
    requires
        0 <= i < 6,
    ensures
        browser_tab_target(crate::ui::models::s3_fields()[i]) == crate::ui::models::s3_fields()[i + 1],
        browser_tab_target(FocusField::SnapshotList) == crate::ui::models::s3_fields()[0],
        browser_tab_target(crate::ui::models::s3_fields()[6]) == FocusField::SnapshotList,
{
}

/// Sorts snapshots newest first, keeping the listing order of snapshots
/// with the same modification time.
pub fn sort_newest_first(items: Vec<BackupMetadata>) -> (r: Vec<BackupMetadata>)
    ensures
        stable_newest_first(r@, items@),
{
    let mut r: Vec<BackupMetadata> = Vec::new();
    let n = items.len();
    let mut i: usize = 0;
    while i < n
        invariant
            n == items.len(),
            i <= n,
            newest_first(r@),
            forall|t: Timestamp| #[trigger] same_time(r@, t) == same_time(items@.take(i as int), t),
        decreases n - i,
    {
        let m = items[i].clone();
        let mut p: usize = 0;
        while p < r.len() && is_not_older(r[p].last_modified, m.last_modified)
            invariant
                p <= r.len(),
                forall|q: int| 0 <= q < p ==> not_older(#[trigger] r@[q].last_modified, m.last_modified),
            decreases r.len() - p,
        {
            p = p + 1;
        }
        let ghost before = r@;
        proof {
            assert forall|q: int| p <= q < before.len() implies !not_older(
                #[trigger] before[q].last_modified,
                m.last_modified,
            ) by {
                if q > p {
                    assert(not_older(before[p as int].last_modified, before[q].last_modified));
                }
            }
        }
        r.insert(p, m);
        proof {
            assert(items@.take(i + 1) =~= items@.take(i as int).push(m));
            assert forall|t: Timestamp| #[trigger] same_time(r@, t) == same_time(items@.take(i + 1), t) by {
                lemma_same_time_insert(before, p as int, m, t);
                items@.take(i as int).lemma_filter_push(m, at_time(t));
            }
            assert forall|a: int, b: int| 0 <= a < b < r@.len() implies not_older(
                #[trigger] r@[a].last_modified,
                #[trigger] r@[b].last_modified,
            ) by {
                if a < p && b == p {
                } else if a < p && b > p {
                    assert(r@[b] == before[b - 1]);
                } else if a == p && b > p {
                    assert(r@[b] == before[b - 1]);
                } else if b < p {
                } else {
                    assert(r@[b] == before[b - 1]);
                    assert(r@[a] == before[a - 1]);
                }
            }
        }
        i = i + 1;
    }
    assert(items@.take(n as int) =~= items@);
    r
}

/// The snapshots of a bucket listing (see [`listed_snapshots`]), in listing order.
pub fn select_snapshots(objects: &Vec<S3Object>, prefix: &str, now: Timestamp) -> (r: Vec<BackupMetadata>)
    ensures
        r@ == listed_snapshots(objects@, prefix@, now),
{
    let mut r: Vec<BackupMetadata> = Vec::new();
    let mut i: usize = 0;
    while i < objects.len()
        invariant
            i <= objects.len(),
            r@ == listed_snapshots(objects@.take(i as int), prefix@, now),
        decreases objects.len() - i,
    {
        let o = &objects[i];
        let ghost pred = |o: S3Object| is_snapshot_object(o, prefix@);
        let ghost f = |o: S3Object| snapshot_metadata(o, now);
        proof {
            assert(objects@.take(i + 1) =~= objects@.take(i as int).push(*o));
            objects@.take(i as int).lemma_filter_push(*o, pred);
        }
        match &o.key {
            Some(key) => {
                if !ends_with_char(key.as_str(), '/') && starts_with(key.as_str(), prefix) {
                    let m = BackupMetadata {
                        key: key.clone(),
                        size: match o.size {
                            Some(s) => s,
                            None => 0,
                        },
                        last_modified: match o.last_modified {
                            Some(t) => t,
                            None => now,
                        },
                    };
                    r.push(m);
                    proof {
                        let fl = objects@.take(i as int).filter(pred);
                        assert(fl.push(*o).map_values(f) =~= fl.map_values(f).push(f(*o)));
                    }
                }
            },
            None => {},
        }
        i = i + 1;
    }
    assert(objects@.take(objects.len() as int) =~= objects@);
    r
}

/// The name of the local file a snapshot is downloaded to:
/// `rustored_snapshot_` followed by the key with each `/` replaced by `_`.
pub open spec fn snapshot_file_name_spec(key: Seq<char>) -> Seq<char> {
    "rustored_snapshot_"@ + replace_char_spec(key, '/', '_')
}

/// The name of the local file a snapshot is downloaded to.
pub fn snapshot_file_name(key: &str) -> (r: String)
    ensures
        r@ == snapshot_file_name_spec(key@),
{
    let mut r = String::from_str("rustored_snapshot_");
    let tail = replace_char(key, '/', '_');
    r.append(tail.as_str());
    r
}

/// Component for S3 snapshot browsing.
#[derive(Debug)]
pub struct SnapshotBrowser {
    pub s3_config: S3Config,
    pub focus: FocusField,
    pub input_mode: InputMode,
    pub input_buffer: String,
    pub snapshots: Vec<BackupMetadata>,
    pub selected_index: usize,
    pub popup_state: PopupState,
}

impl SnapshotBrowser {
    /// The selection points into the snapshot list whenever the list is non-empty.
    pub open spec fn wf(&self) -> bool {
        self.snapshots.len() == 0 || self.selected_index < self.snapshots.len()
    }

    /// Create a new SnapshotBrowser: focus on the list, normal mode, no
    /// snapshots and no popup.
    pub fn new(s3_config: S3Config) -> (r: Self)
        ensures
            r.s3_config == s3_config,
            r.focus == FocusField::SnapshotList,
            r.input_mode == InputMode::Normal,
            r.input_buffer@ == Seq::<char>::empty(),
            r.snapshots@ == Seq::<BackupMetadata>::empty(),
            r.selected_index == 0,
            r.popup_state == PopupState::Hidden,
            r.wf(),
    {
        SnapshotBrowser {
            s3_config,
            focus: FocusField::SnapshotList,
            input_mode: InputMode::Normal,
            input_buffer: String::new(),
            snapshots: Vec::new(),
            selected_index: 0,
            popup_state: PopupState::Hidden,
        }
    }

    /// Replace the snapshot list by the snapshots of a bucket listing,
    /// newest first, and select the first one. `now` stands in for a
    /// missing modification time.
    pub fn parse_s3_output(&mut self, objects: Vec<S3Object>, now: Timestamp)
        ensures
            stable_newest_first(
                final(self).snapshots@,
                listed_snapshots(objects@, old(self).s3_config.prefix@, now),
            ),
            final(self).selected_index == 0,
            final(self).wf(),
            *final(self) == (SnapshotBrowser {
                snapshots: final(self).snapshots,
                selected_index: 0,
                ..*old(self)
            }),
    {
        let listed = select_snapshots(&objects, self.s3_config.prefix.as_str(), now);
        let sorted = sort_newest_first(listed);
        self.snapshots = sorted;
        self.selected_index = 0;
    }

    /// Show that the download of `snapshot` has started.
    pub fn begin_download(&mut self, snapshot: &BackupMetadata)
        ensures
            *final(self) == (SnapshotBrowser {
                popup_state: PopupState::Downloading(*snapshot, 0, 0),
                ..*old(self)
            }),
    {
        self.popup_state = PopupState::Downloading(snapshot.clone(), 0, 0);
    }

    /// Show the progress of the download of `snapshot`.
    pub fn show_download_progress(&mut self, snapshot: &BackupMetadata, downloaded: u64, rate: u64)
        ensures
            *final(self) == (SnapshotBrowser {
                popup_state: PopupState::Downloading(*snapshot, downloaded, rate),
                ..*old(self)
            }),
    {
        self.popup_state = PopupState::Downloading(snapshot.clone(), downloaded, rate);
    }

    /// Show that the download of `snapshot` has completed.
    pub fn finish_download(&mut self, snapshot: &BackupMetadata)
        ensures
            final(self).popup_state is Success,
            final(self).popup_state->Success_0@ == "Download complete: "@ + snapshot.key@,
            *final(self) == (SnapshotBrowser { popup_state: final(self).popup_state, ..*old(self) }),
    {
        let mut msg = String::from_str("Download complete: ");
        msg.append(snapshot.key.as_str());
        self.popup_state = PopupState::Success(msg);
    }

    /// Show that saving a download failed with `error`.
    pub fn fail_download(&mut self, error: &str)
        ensures
            final(self).popup_state is Error,
            final(self).popup_state->Error_0@ == "Download failed: "@ + error@,
            *final(self) == (SnapshotBrowser { popup_state: final(self).popup_state, ..*old(self) }),
    {
        let mut msg = String::from_str("Download failed: ");
        msg.append(error);
        self.popup_state = PopupState::Error(msg);
    }
}

/// How far a download has come, and when the progress was last shown.
pub struct DownloadTracker {
    pub downloaded: u64,
    pub start_ms: u64,
    pub last_update_ms: u64,
}

/// The transfer rate in bytes per second of `downloaded` bytes in `elapsed_ms`
/// milliseconds (0 when no time has passed).
pub open spec fn rate_spec(downloaded: u64, elapsed_ms: u64) -> u64 {
    if elapsed_ms == 0 {
        0
    } else {
        let r = (downloaded as nat * 1000) / (elapsed_ms as nat);
        if r > u64::MAX {
            u64::MAX
        } else {
            r as u64
        }
    }
}

impl DownloadTracker {
    /// A download that starts at `now_ms`.
    pub fn new(now_ms: u64) -> (r: Self)
        ensures
            r.downloaded == 0,
            r.start_ms == now_ms,
            r.last_update_ms == now_ms,
    {
        DownloadTracker { downloaded: 0, start_ms: now_ms, last_update_ms: now_ms }
    }

    /// Count `n` more bytes received at `now_ms`. The progress is to be shown
    /// at most ten times a second: when more than 100 ms have passed since it
    /// was last shown, the result is the transfer rate so far.
    pub fn record_chunk(&mut self, n: u64, now_ms: u64) -> (r: Option<u64>)
        requires
            old(self).downloaded + n <= u64::MAX,
            old(self).start_ms <= old(self).last_update_ms <= now_ms,
        ensures
            final(self).downloaded == old(self).downloaded + n,
            final(self).start_ms == old(self).start_ms,
            now_ms - old(self).last_update_ms > 100 ==> final(self).last_update_ms == now_ms && r
                == Some(rate_spec(final(self).downloaded, (now_ms - old(self).start_ms) as u64)),
            !(now_ms - old(self).last_update_ms > 100) ==> final(self).last_update_ms
                == old(self).last_update_ms && r is None,
    {
        self.downloaded = self.downloaded + n;
        if now_ms - self.last_update_ms > 100 {
            self.last_update_ms = now_ms;
            let elapsed = now_ms - self.start_ms;
            let rate: u64 = if elapsed == 0 {
                0
            } else {
                let big: u128 = (self.downloaded as u128) * 1000 / (elapsed as u128);
                if big > u64::MAX as u128 {
                    u64::MAX
                } else {
                    big as u64
                }
            };
            Some(rate)
        } else {
            None
        }
    }
}


/// Where Tab moves the focus in the snapshot browser: from the snapshot list
/// to the bucket field, through the S3 fields in display order, and from the
/// last S3 field (or any other field) back to the snapshot list.
pub open spec fn browser_tab_target(f: FocusField) -> FocusField {
    match f {
        FocusField::SnapshotList => FocusField::Bucket,
        FocusField::Bucket => FocusField::Region,
        FocusField::Region => FocusField::Prefix,
        FocusField::Prefix => FocusField::EndpointUrl,
        FocusField::EndpointUrl => FocusField::AccessKeyId,
        FocusField::AccessKeyId => FocusField::SecretAccessKey,
        FocusField::SecretAccessKey => FocusField::PathStyle,
        _ => FocusField::SnapshotList,
    }
}

/// The popups that take every key in the snapshot browser.
pub open spec fn browser_popup_takes_keys(p: PopupState) -> bool {
    p is ConfirmRestore || p is ConfirmCancel || p is Downloading || p is Error || p is Success
}

/// The browser with its selection moved by `down` (or up), wrapping.
pub open spec fn browser_moved(b: SnapshotBrowser, down: bool) -> SnapshotBrowser {
    if b.snapshots.len() == 0 {
        b
    } else if down {
        SnapshotBrowser {
            selected_index: next_index(b.selected_index, b.snapshots.len()),
            ..b
        }
    } else {
        SnapshotBrowser {
            selected_index: prev_index(b.selected_index, b.snapshots.len()),
            ..b
        }
    }
}

/// The interface state the browser's key handling works on, taken together.
pub struct BrowserUi {
    pub popup_state: PopupState,
    pub input_mode: InputMode,
    pub input_buffer: String,
    pub focus: FocusField,
    pub s3_config: S3Config,
}

/// What a key does in the snapshot browser (browser `a`, interface state
/// `u` before; `b` and `v` after).
pub open spec fn browser_key_post(
    a: SnapshotBrowser,
    u: BrowserUi,
    key: Key,
    b: SnapshotBrowser,
    v: BrowserUi,
    r: KeyAction,
) -> bool {
    if browser_popup_takes_keys(u.popup_state) {
        &&& b == a
        &&& v == BrowserUi { popup_state: v.popup_state, ..u }
        &&& popup_transition(u.popup_state, key, v.popup_state, r)
    } else if u.input_mode == InputMode::Editing {
        match key {
            Key::Enter => {
                &&& v.s3_config@ == s3_apply_edit(u.s3_config@, u.focus, u.input_buffer@)
                &&& v == BrowserUi { s3_config: v.s3_config, input_mode: InputMode::Normal, ..u }
                &&& b == SnapshotBrowser { s3_config: v.s3_config, ..a }
                &&& r == KeyAction::ReconnectAndReload
            },
            Key::Esc => b == a && v == BrowserUi { input_mode: InputMode::Normal, ..u } && r
                == KeyAction::Continue,
            Key::Char(c) => {
                &&& b == a
                &&& v == BrowserUi { input_buffer: v.input_buffer, ..u }
                &&& v.input_buffer@ == u.input_buffer@.push(c)
                &&& r == KeyAction::Continue
            },
            Key::Backspace => {
                &&& b == a
                &&& v == BrowserUi { input_buffer: v.input_buffer, ..u }
                &&& v.input_buffer@ == (if u.input_buffer@.len() == 0 {
                    u.input_buffer@
                } else {
                    u.input_buffer@.drop_last()
                })
                &&& r == KeyAction::Continue
            },
            _ => b == a && v == u && r == KeyAction::Continue,
        }
    } else {
        match key {
            Key::Char('r') => b == a && v == u && r == KeyAction::ReloadSnapshots,
            Key::Down | Key::Char('j') => b == browser_moved(a, true) && v == u && r
                == KeyAction::Continue,
            Key::Up | Key::Char('k') => b == browser_moved(a, false) && v == u && r
                == KeyAction::Continue,
            Key::Enter => b == a && r == KeyAction::Continue && if a.snapshots.len() == 0 {
                v == u
            } else {
                v == BrowserUi {
                    popup_state: PopupState::ConfirmRestore(a.snapshots@[a.selected_index as int]),
                    ..u
                }
            },
            Key::Tab => b == a && v == BrowserUi { focus: browser_tab_target(u.focus), ..u } && r
                == KeyAction::Continue,
            Key::Char('e') => b == a && r == KeyAction::Continue && if u.focus
                == FocusField::SnapshotList {
                v == u
            } else {
                &&& v == BrowserUi {
                    input_mode: InputMode::Editing,
                    input_buffer: v.input_buffer,
                    ..u
                }
                &&& v.input_buffer@ == u.s3_config@.field_value(u.focus)
            },
            _ => b == a && v == u && r == KeyAction::Continue,
        }
    }
}

impl SnapshotBrowser {
    /// Handle a key in the snapshot browser, on the interface state it is
    /// given: popups first, then field editing, then list navigation.
    pub fn handle_key_event(
        &mut self,
        key: Key,
        popup_state: &mut PopupState,
        input_mode: &mut InputMode,
        input_buffer: &mut String,
        focus: &mut FocusField,
        s3_config: &mut S3Config,
    ) -> (r: KeyAction)
        requires
            old(self).wf(),
        ensures
            browser_key_post(
                *old(self),
                BrowserUi {
                    popup_state: *old(popup_state),
                    input_mode: *old(input_mode),
                    input_buffer: *old(input_buffer),
                    focus: *old(focus),
                    s3_config: *old(s3_config),
                },
                key,
                *final(self),
                BrowserUi {
                    popup_state: *final(popup_state),
                    input_mode: *final(input_mode),
                    input_buffer: *final(input_buffer),
                    focus: *final(focus),
                    s3_config: *final(s3_config),
                },
                r,
            ),
            final(self).wf(),
    {
        let yes = match key {
            Key::Char('y') | Key::Char('Y') => true,
            _ => false,
        };
        let no = match key {
            Key::Char('n') | Key::Char('N') | Key::Esc => true,
            _ => false,
        };
        match &*popup_state {
            PopupState::ConfirmRestore(snapshot) => {
                if yes {
                    return KeyAction::Download(snapshot.clone());
                }
                if no {
                    *popup_state = PopupState::Hidden;
                }
                return KeyAction::Continue;
            },
            PopupState::ConfirmCancel(snapshot, downloaded, rate) => {
                if yes {
                    *popup_state = PopupState::Error(String::from_str("Download cancelled"));
                } else if no {
                    *popup_state = PopupState::Downloading(snapshot.clone(), *downloaded, *rate);
                }
                return KeyAction::Continue;
            },
            PopupState::Downloading(snapshot, downloaded, rate) => {
                match key {
                    Key::Esc => {
                        *popup_state = PopupState::ConfirmCancel(snapshot.clone(), *downloaded, *rate);
                    },
                    _ => {},
                }
                return KeyAction::Continue;
            },
            PopupState::Error(_) | PopupState::Success(_) => {
                match key {
                    Key::Esc | Key::Enter => {
                        *popup_state = PopupState::Hidden;
                    },
                    _ => {},
                }
                return KeyAction::Continue;
            },
            _ => {},
        }
        match *input_mode {
            InputMode::Editing => {
                match key {
                    Key::Enter => {
                        let f = *focus;
                        match f {
                            FocusField::PathStyle => {
                                s3_config.path_style = lowercases_to_true(input_buffer.as_str());
                            },
                            _ => {
                                let value = input_buffer.clone();
                                s3_config.set_field_value(f, value);
                            },
                        }
                        *input_mode = InputMode::Normal;
                        self.s3_config = s3_config.clone();
                        return KeyAction::ReconnectAndReload;
                    },
                    Key::Esc => {
                        *input_mode = InputMode::Normal;
                    },
                    Key::Char(c) => {
                        push_char(input_buffer, c);
                    },
                    Key::Backspace => {
                        let _ = pop_char(input_buffer);
                    },
                    _ => {},
                }
                return KeyAction::Continue;
            },
            InputMode::Normal => {},
        }
        match key {
            Key::Char('r') => {
                return KeyAction::ReloadSnapshots;
            },
            Key::Down | Key::Char('j') => {
                if self.snapshots.len() > 0 {
                    self.selected_index = (self.selected_index + 1) % self.snapshots.len();
                }
            },
            Key::Up | Key::Char('k') => {
                if self.snapshots.len() > 0 {
                    self.selected_index = if self.selected_index == 0 {
                        self.snapshots.len() - 1
                    } else {
                        self.selected_index - 1
                    };
                }
            },
            Key::Enter => {
                if self.snapshots.len() > 0 {
                    *popup_state = PopupState::ConfirmRestore(self.snapshots[self.selected_index].clone());
                }
            },
            Key::Tab => {
                *focus = match *focus {
                    FocusField::SnapshotList => FocusField::Bucket,
                    FocusField::Bucket => FocusField::Region,
                    FocusField::Region => FocusField::Prefix,
                    FocusField::Prefix => FocusField::EndpointUrl,
                    FocusField::EndpointUrl => FocusField::AccessKeyId,
                    FocusField::AccessKeyId => FocusField::SecretAccessKey,
                    FocusField::SecretAccessKey => FocusField::PathStyle,
                    _ => FocusField::SnapshotList,
                };
            },
            Key::Char('e') => {
                match *focus {
                    FocusField::SnapshotList => {},
                    _ => {
                        *input_mode = InputMode::Editing;
                        *input_buffer = s3_config.get_field_value(*focus);
                    },
                }
            },
            _ => {},
        }
        KeyAction::Continue
    }
}

} // verus!
