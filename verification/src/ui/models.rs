//! Shared UI model types: focus fields, input modes, popups and snapshot metadata.

use vstd::prelude::*;

pub mod s3_config;
pub use s3_config::S3Config;
pub mod postgres_config;
pub use postgres_config::PostgresConfig;
pub mod elasticsearch_config;
pub use elasticsearch_config::ElasticsearchConfig;
pub mod qdrant_config;
pub use qdrant_config::QdrantConfig;

verus! {

/// Restore target options.
#[derive(Clone, Copy, Debug, PartialEq, Eq, Structural)]
pub enum RestoreTarget {
    Postgres,
    Elasticsearch,
    Qdrant,
}

impl Default for RestoreTarget {
    fn default() -> (r: Self)
        ensures
            r == RestoreTarget::Postgres,
    {
        RestoreTarget::Postgres
    }
}

/// Input mode for the UI.
#[derive(Clone, Copy, Debug, PartialEq, Eq, Structural)]
pub enum InputMode {
    Normal,
    Editing,
}

/// A point in time as S3 reports it: whole seconds since the Unix epoch and
/// the nanoseconds within that second.
#[derive(Clone, Copy, Debug, PartialEq, Eq, Structural)]
pub struct Timestamp {
    pub secs: i64,
    pub nanos: u32,
}

/// `a` is at or after `b`.
pub open spec fn not_older(a: Timestamp, b: Timestamp) -> bool {
    a.secs > b.secs || (a.secs == b.secs && a.nanos >= b.nanos)
}

/// Is `a` at or after `b`?
pub fn is_not_older(a: Timestamp, b: Timestamp) -> (r: bool)
    ensures
        r == not_older(a, b),
{
    a.secs > b.secs || (a.secs == b.secs && a.nanos >= b.nanos)
}

/// Metadata for a backup stored in S3.
#[derive(Debug, PartialEq)]
pub struct BackupMetadata {
    pub key: String,
    pub size: i64,
    pub last_modified: Timestamp,
}

impl Clone for BackupMetadata {
    fn clone(&self) -> (r: Self)
        ensures
            r == *self,
    {
        BackupMetadata { key: self.key.clone(), size: self.size, last_modified: self.last_modified }
    }
}

/// State of the popup.
///
/// A download carries the bytes received so far and the transfer rate in
/// bytes per second; a restore carries its progress in percent.
#[derive(Debug, PartialEq)]
pub enum PopupState {
    Hidden,
    ConfirmRestore(BackupMetadata),
    Downloading(BackupMetadata, u64, u64),
    ConfirmCancel(BackupMetadata, u64, u64),
    Restoring(BackupMetadata, u8),
    TestingS3,
    TestS3Result(String),
    TestingPg,
    TestPgResult(String),
    Error(String),
    Success(String),
}

impl Clone for PopupState {
    fn clone(&self) -> (r: Self)
        ensures
            r == *self,
    {
        match self {
            PopupState::Hidden => PopupState::Hidden,
            PopupState::ConfirmRestore(s) => PopupState::ConfirmRestore(s.clone()),
            PopupState::Downloading(s, d, r) => PopupState::Downloading(s.clone(), *d, *r),
            PopupState::ConfirmCancel(s, d, r) => PopupState::ConfirmCancel(s.clone(), *d, *r),
            PopupState::Restoring(s, p) => PopupState::Restoring(s.clone(), *p),
            PopupState::TestingS3 => PopupState::TestingS3,
            PopupState::TestS3Result(m) => PopupState::TestS3Result(m.clone()),
            PopupState::TestingPg => PopupState::TestingPg,
            PopupState::TestPgResult(m) => PopupState::TestPgResult(m.clone()),
            PopupState::Error(m) => PopupState::Error(m.clone()),
            PopupState::Success(m) => PopupState::Success(m.clone()),
        }
    }
}

/// A key press, as far as the interface tells keys apart.
#[derive(Clone, Copy, Debug, PartialEq, Eq, Structural)]
pub enum Key {
    Char(char),
    Enter,
    Esc,
    Tab,
    Up,
    Down,
    Backspace,
    Other,
}

/// The work a key press asks of the program around the state machine.
#[derive(Debug, PartialEq)]
pub enum KeyAction {
    /// Nothing beyond the state change: keep going.
    Continue,
    /// Leave the interface.
    Quit,
    /// Download this snapshot.
    Download(BackupMetadata),
    /// List the snapshots again.
    ReloadSnapshots,
    /// Rebuild the S3 client from the browser's settings, then list the snapshots again.
    ReconnectAndReload,
    /// Test the connection to S3.
    TestS3Connection,
    /// Test the connection to PostgreSQL.
    TestPgConnection,
}

/// Focus field for the UI.
#[derive(Clone, Copy, Debug, PartialEq, Eq, Structural)]
pub enum FocusField {
    // S3 settings
    Bucket,
    Region,
    Prefix,
    EndpointUrl,
    AccessKeyId,
    SecretAccessKey,
    PathStyle,
    // PostgreSQL settings
    PgHost,
    PgPort,
    PgUsername,
    PgPassword,
    PgSsl,
    PgDbName,
    SnapshotList,
    RestoreTarget,
    // Elasticsearch (and Qdrant host/collection) settings
    EsHost,
    EsIndex,
    QdrantApiKey,
}

/// The human-readable name of a focus field.
pub open spec fn focus_label(f: FocusField) -> Seq<char> {
    match f {
        FocusField::Bucket => "Bucket"@,
        FocusField::Region => "Region"@,
        FocusField::Prefix => "Prefix"@,
        FocusField::EndpointUrl => "Endpoint URL"@,
        FocusField::AccessKeyId => "Access Key ID"@,
        FocusField::SecretAccessKey => "Secret Access Key"@,
        FocusField::PathStyle => "Path Style"@,
        FocusField::SnapshotList => "Snapshot List"@,
        FocusField::RestoreTarget => "Restore Target"@,
        FocusField::PgHost => "PostgreSQL Host"@,
        FocusField::PgPort => "PostgreSQL Port"@,
        FocusField::PgUsername => "PostgreSQL Username"@,
        FocusField::PgPassword => "PostgreSQL Password"@,
        FocusField::PgSsl => "PostgreSQL SSL"@,
        FocusField::PgDbName => "PostgreSQL Database"@,
        FocusField::EsHost => "Elasticsearch/Qdrant Host"@,
        FocusField::EsIndex => "Index/Collection"@,
        FocusField::QdrantApiKey => "Qdrant API Key"@,
    }
}

impl FocusField {
    /// The text the field is displayed with (what its `Display` writes).
    pub fn label(&self) -> (r: String)
        ensures
            r@ == focus_label(*self),
    {
        let s = match self {
            FocusField::Bucket => "Bucket",
            FocusField::Region => "Region",
            FocusField::Prefix => "Prefix",
            FocusField::EndpointUrl => "Endpoint URL",
            FocusField::AccessKeyId => "Access Key ID",
            FocusField::SecretAccessKey => "Secret Access Key",
            FocusField::PathStyle => "Path Style",
            FocusField::SnapshotList => "Snapshot List",
            FocusField::RestoreTarget => "Restore Target",
            FocusField::PgHost => "PostgreSQL Host",
            FocusField::PgPort => "PostgreSQL Port",
            FocusField::PgUsername => "PostgreSQL Username",
            FocusField::PgPassword => "PostgreSQL Password",
            FocusField::PgSsl => "PostgreSQL SSL",
            FocusField::PgDbName => "PostgreSQL Database",
            FocusField::EsHost => "Elasticsearch/Qdrant Host",
            FocusField::EsIndex => "Index/Collection",
            FocusField::QdrantApiKey => "Qdrant API Key",
        };
        crate::text::owned(s)
    }
}

/// The S3 settings fields, in display order.
pub open spec fn s3_fields() -> Seq<FocusField> {
    seq![
        FocusField::Bucket,
        FocusField::Region,
        FocusField::Prefix,
        FocusField::EndpointUrl,
        FocusField::AccessKeyId,
        FocusField::SecretAccessKey,
        FocusField::PathStyle,
    ]
}

/// The PostgreSQL settings fields, in display order.
pub open spec fn pg_fields() -> Seq<FocusField> {
    seq![
        FocusField::PgHost,
        FocusField::PgPort,
        FocusField::PgUsername,
        FocusField::PgPassword,
        FocusField::PgSsl,
        FocusField::PgDbName,
    ]
}

/// The Elasticsearch settings fields, in display order.
pub open spec fn es_fields() -> Seq<FocusField> {
    seq![FocusField::EsHost, FocusField::EsIndex]
}

/// The Qdrant settings fields, in display order (host and collection share
/// the Elasticsearch fields).
pub open spec fn qdrant_fields() -> Seq<FocusField> {
    seq![FocusField::EsHost, FocusField::EsIndex, FocusField::QdrantApiKey]
}

pub open spec fn is_s3_field(f: FocusField) -> bool {
    f == FocusField::Bucket || f == FocusField::Region || f == FocusField::Prefix || f
        == FocusField::EndpointUrl || f == FocusField::AccessKeyId || f
        == FocusField::SecretAccessKey || f == FocusField::PathStyle
}

pub open spec fn is_pg_field(f: FocusField) -> bool {
    f == FocusField::PgHost || f == FocusField::PgPort || f == FocusField::PgUsername || f
        == FocusField::PgPassword || f == FocusField::PgSsl || f == FocusField::PgDbName
}

pub open spec fn is_es_field(f: FocusField) -> bool {
    f == FocusField::EsHost || f == FocusField::EsIndex
}

pub open spec fn is_qdrant_field(f: FocusField) -> bool {
    f == FocusField::EsHost || f == FocusField::EsIndex || f == FocusField::QdrantApiKey
}

/// The text an optional setting is shown and edited as (empty when unset).
pub open spec fn opt_text(o: Option<Seq<char>>) -> Seq<char> {
    match o {
        Some(s) => s,
        None => Seq::empty(),
    }
}

/// The view of an optional string.
pub open spec fn opt_view(o: Option<String>) -> Option<Seq<char>> {
    match o {
        Some(s) => Some(s@),
        None => None,
    }
}

/// `o.clone().unwrap_or_default()`.
pub fn text_or_empty(o: &Option<String>) -> (r: String)
    ensures
        r@ == opt_text(opt_view(*o)),
{
    match o {
        Some(s) => s.clone(),
        None => String::new(),
    }
}

/// The time of `t` in nanoseconds since the Unix epoch.
pub open spec fn epoch_nanos(t: Timestamp) -> int {
    t.secs * 1_000_000_000 + t.nanos
}

/// `not_older` is the order of points in time: `a` is at or after `b`
/// exactly when its time since the epoch is at least `b`'s (for
/// nanoseconds within their second). In particular a later second is never
/// older, whatever the time of day.
pub proof fn law_not_older_is_time_order(a: Timestamp, b: Timestamp)
    requires
        a.nanos < 1_000_000_000,
        b.nanos < 1_000_000_000,
    ensures
        not_older(a, b) <==> epoch_nanos(a) >= epoch_nanos(b),
        a.secs > b.secs ==> not_older(a, b) && !not_older(b, a),
        not_older(a, b) || not_older(b, a),
{
    let (x, y) = (a.secs as int, b.secs as int);
    if x > y {
        assert(x * 1_000_000_000 >= y * 1_000_000_000 + 1_000_000_000) by (nonlinear_arith)
            requires
                x > y,
        ;
    } else if x < y {
        assert(y * 1_000_000_000 >= x * 1_000_000_000 + 1_000_000_000) by (nonlinear_arith)
            requires
                x < y,
        ;
    }
}

} // verus!
