//! The application state of the interactive browser, and what a key press does to it.

use vstd::prelude::*;
use crate::ui::browser::SnapshotBrowser;
use crate::ui::key_handler::{
    handle_editing_mode, handle_normal_mode, handle_popup_events, key_post,
};
use crate::ui::models::{
    ElasticsearchConfig, FocusField, InputMode, Key, KeyAction, PopupState, PostgresConfig,
    QdrantConfig, RestoreTarget, S3Config, opt_text, opt_view, text_or_empty,
};
use crate::ui::models::s3_config::S3ConfigView;
use crate::ui::models::postgres_config::{PostgresConfigView, clone_opt};
use crate::ui::models::elasticsearch_config::ElasticsearchConfigView;
use crate::ui::models::qdrant_config::QdrantConfigView;
use crate::ui::models::{BackupMetadata, is_s3_field};
use crate::ui::models::s3_config::mask_secret_spec;
use crate::ui::models::postgres_config::{port_text, secret_display};
use crate::targets::postgres_target::PgConnectionRequest;
use crate::text::{bool_text, concat2, repeat_char};
use vstd::string::*;
use vstd::utf8::*;

verus! {

/// The state of the interactive application.
#[derive(Debug)]
pub struct RustoredApp {
    pub snapshot_browser: SnapshotBrowser,
    pub s3_config: S3Config,
    pub pg_config: PostgresConfig,
    pub es_config: ElasticsearchConfig,
    pub qdrant_config: QdrantConfig,
    pub restore_target: RestoreTarget,
    pub popup_state: PopupState,
    pub input_mode: InputMode,
    pub input_buffer: String,
    pub focus: FocusField,
}

impl RustoredApp {
    /// The snapshot selection points into the snapshot list whenever it is non-empty.
    pub open spec fn wf(&self) -> bool {
        self.snapshot_browser.wf()
    }

    /// Create a new RustoredApp from individual command-line settings. The
    /// Elasticsearch host and index double as the Qdrant host and collection.
    pub fn new(
        bucket: &Option<String>,
        region: &Option<String>,
        prefix: &Option<String>,
        endpoint_url: &Option<String>,
        access_key_id: &Option<String>,
        secret_access_key: &Option<String>,
        path_style: bool,
        host: &Option<String>,
        port: &Option<u16>,
        username: &Option<String>,
        password: &Option<String>,
        use_ssl: bool,
        db_name: &Option<String>,
        es_host: &Option<String>,
        es_index: &Option<String>,
        qdrant_api_key: &Option<String>,
    ) -> (r: Self)
        ensures
            r.s3_config@ == (S3ConfigView {
                bucket: opt_text(opt_view(*bucket)),
                region: opt_text(opt_view(*region)),
                prefix: opt_text(opt_view(*prefix)),
                endpoint_url: opt_text(opt_view(*endpoint_url)),
                access_key_id: opt_text(opt_view(*access_key_id)),
                secret_access_key: opt_text(opt_view(*secret_access_key)),
                path_style: path_style,
                error_message: None,
                test_s3_button: false,
            }),
            r.pg_config@ == (PostgresConfigView {
                host: opt_view(*host),
                port: *port,
                username: opt_view(*username),
                password: opt_view(*password),
                use_ssl: use_ssl,
                db_name: opt_view(*db_name),
            }),
            r.es_config@ == (ElasticsearchConfigView {
                host: opt_view(*es_host),
                index: opt_view(*es_index),
            }),
            r.qdrant_config@ == (QdrantConfigView {
                host: opt_view(*es_host),
                collection: opt_view(*es_index),
                api_key: opt_view(*qdrant_api_key),
            }),
            r.snapshot_browser.s3_config == r.s3_config,
            r.snapshot_browser.focus == FocusField::SnapshotList,
            r.snapshot_browser.input_mode == InputMode::Normal,
            r.snapshot_browser.input_buffer@.len() == 0,
            r.snapshot_browser.snapshots@.len() == 0,
            r.snapshot_browser.selected_index == 0,
            r.snapshot_browser.popup_state == PopupState::Hidden,
            r.restore_target == RestoreTarget::Postgres,
            r.popup_state == PopupState::Hidden,
            r.input_mode == InputMode::Normal,
            r.input_buffer@.len() == 0,
            r.focus == FocusField::SnapshotList,
            r.wf(),
    {
        let s3_config = S3Config {
            bucket: text_or_empty(bucket),
            region: text_or_empty(region),
            prefix: text_or_empty(prefix),
            endpoint_url: text_or_empty(endpoint_url),
            access_key_id: text_or_empty(access_key_id),
            secret_access_key: text_or_empty(secret_access_key),
            path_style,
            error_message: None,
            test_s3_button: false,
        };
        let pg_config = PostgresConfig {
            host: clone_opt(host),
            port: *port,
            username: clone_opt(username),
            password: clone_opt(password),
            use_ssl,
            db_name: clone_opt(db_name),
        };
        let es_config = ElasticsearchConfig { host: clone_opt(es_host), index: clone_opt(es_index) };
        let qdrant_config = QdrantConfig {
            host: clone_opt(es_host),
            collection: clone_opt(es_index),
            api_key: clone_opt(qdrant_api_key),
        };
        let snapshot_browser = SnapshotBrowser::new(s3_config.clone());
        RustoredApp {
            snapshot_browser,
            s3_config,
            pg_config,
            es_config,
            qdrant_config,
            restore_target: RestoreTarget::Postgres,
            popup_state: PopupState::Hidden,
            input_mode: InputMode::Normal,
            input_buffer: String::new(),
            focus: FocusField::SnapshotList,
        }
    }

    /// Handle a key press: an open popup takes every key; otherwise the key
    /// edits the field being edited, or navigates and triggers actions.
    pub fn handle_key_event(&mut self, key: Key) -> (r: KeyAction)
        requires
            old(self).wf(),
        ensures
            key_post(*old(self), key, *final(self), r),
            final(self).wf(),
    {
        match self.popup_state {
            PopupState::Hidden => {},
            _ => {
                return handle_popup_events(self, key);
            },
        }
        match self.input_mode {
            InputMode::Editing => handle_editing_mode(self, key),
            InputMode::Normal => handle_normal_mode(self, key),
        }
    }
}


/// What a restore from the interactive application writes to.
#[derive(Debug)]
pub enum RestoreRequest {
    Postgres(PgConnectionRequest),
    Elasticsearch { host: String, index: String },
    Qdrant { host: String, collection: String, api_key: Option<String> },
}

/// One row of a settings panel: its label, the text shown, and the field it edits.
#[derive(Debug, PartialEq)]
pub struct SettingsRow {
    pub label: String,
    pub value: String,
    pub field: FocusField,
}

/// The texts of a list of settings rows.
pub open spec fn row_texts(rows: Seq<SettingsRow>) -> Seq<(Seq<char>, Seq<char>, FocusField)> {
    rows.map_values(|r: SettingsRow| (r.label@, r.value@, r.field))
}

fn push_row(rows: &mut Vec<SettingsRow>, label: &str, value: String, field: FocusField)
    ensures
        row_texts(final(rows)@) == row_texts(old(rows)@).push((label@, value@, field)),
{
    rows.push(SettingsRow { label: String::from_str(label), value, field });
    assert(row_texts(rows@) =~= row_texts(old(rows)@).push((label@, value@, field)));
}

/// The text of one S3 settings line: the edited text while that field is
/// being edited, else the shown value.
pub open spec fn s3_line(a: RustoredApp, f: FocusField, label: Seq<char>, shown: Seq<char>) -> Seq<char> {
    label + if a.focus == f && a.input_mode == InputMode::Editing {
        a.input_buffer@
    } else {
        shown
    }
}

/// The lines of the S3 settings panel. The access key id is masked (see
/// [`S3Config::mask_secret`]) and the secret access key shows as `[hidden]`
/// unless it is being edited.
pub open spec fn s3_settings_lines_spec(a: RustoredApp) -> Seq<Seq<char>> {
    let c = a.s3_config@;
    seq![
        s3_line(a, FocusField::Bucket, "Bucket: "@, c.bucket),
        s3_line(a, FocusField::Region, "Region: "@, c.region),
        s3_line(a, FocusField::Prefix, "Prefix: "@, c.prefix),
        s3_line(a, FocusField::EndpointUrl, "Endpoint URL: "@, c.endpoint_url),
        s3_line(a, FocusField::AccessKeyId, "Access Key ID: "@, mask_secret_spec(c.access_key_id)),
        s3_line(a, FocusField::SecretAccessKey, "Secret Access Key: "@, "[hidden]"@),
        "Path Style: "@ + bool_text(c.path_style),
    ]
}

/// Is field `f` being edited?
pub open spec fn editing(a: RustoredApp, f: FocusField) -> bool {
    a.focus == f && a.input_mode == InputMode::Editing
}

/// The rows of the Postgres settings panel, as texts and fields.
pub open spec fn postgres_rows_spec(a: RustoredApp) -> Seq<(Seq<char>, Seq<char>, FocusField)> {
    seq![
        ("Host"@, a.pg_config@.field_value(FocusField::PgHost), FocusField::PgHost),
        ("Port"@, port_text(a.pg_config.port), FocusField::PgPort),
        ("Username"@, a.pg_config@.field_value(FocusField::PgUsername), FocusField::PgUsername),
        (
            "Password"@,
            secret_display(a.pg_config@.password, editing(a, FocusField::PgPassword)),
            FocusField::PgPassword,
        ),
        ("Database"@, a.pg_config@.field_value(FocusField::PgDbName), FocusField::PgDbName),
        ("Use SSL"@, if a.pg_config.use_ssl {
            "Yes"@
        } else {
            "No"@
        }, FocusField::PgSsl),
    ]
}

/// The rows of the Elasticsearch settings panel, as texts and fields.
pub open spec fn elasticsearch_rows_spec(a: RustoredApp) -> Seq<(Seq<char>, Seq<char>, FocusField)> {
    seq![
        ("Host"@, a.es_config@.field_value(FocusField::EsHost), FocusField::EsHost),
        ("Index"@, a.es_config@.field_value(FocusField::EsIndex), FocusField::EsIndex),
    ]
}

/// The rows of the Qdrant settings panel, as texts and fields.
pub open spec fn qdrant_rows_spec(a: RustoredApp) -> Seq<(Seq<char>, Seq<char>, FocusField)> {
    seq![
        ("Host"@, a.qdrant_config@.field_value(FocusField::EsHost), FocusField::EsHost),
        ("Collection"@, a.qdrant_config@.field_value(FocusField::EsIndex), FocusField::EsIndex),
        (
            "API Key"@,
            secret_display(a.qdrant_config@.api_key, editing(a, FocusField::QdrantApiKey)),
            FocusField::QdrantApiKey,
        ),
    ]
}

impl RustoredApp {
    fn s3_line(&self, f: FocusField, label: &str, shown: &str) -> (r: String)
        ensures
            r@ == s3_line(*self, f, label@, shown@),
    {
        let editing = self.focus == f && match self.input_mode {
            InputMode::Editing => true,
            InputMode::Normal => false,
        };
        if editing {
            concat2(label, self.input_buffer.as_str())
        } else {
            concat2(label, shown)
        }
    }

    /// The lines of the S3 settings panel (see [`s3_settings_lines_spec`]).
    pub fn s3_settings_lines(&self) -> (r: Vec<String>)
        requires
            encode_utf8(self.s3_config.access_key_id@).len() <= 4 || is_char_boundary(
                encode_utf8(self.s3_config.access_key_id@),
                4,
            ),
        ensures
            crate::text::texts(r@) == s3_settings_lines_spec(*self),
    {
        let c = &self.s3_config;
        let mut r: Vec<String> = Vec::new();
        r.push(self.s3_line(FocusField::Bucket, "Bucket: ", c.bucket.as_str()));
        r.push(self.s3_line(FocusField::Region, "Region: ", c.region.as_str()));
        r.push(self.s3_line(FocusField::Prefix, "Prefix: ", c.prefix.as_str()));
        r.push(self.s3_line(FocusField::EndpointUrl, "Endpoint URL: ", c.endpoint_url.as_str()));
        let masked = c.masked_access_key();
        r.push(self.s3_line(FocusField::AccessKeyId, "Access Key ID: ", masked.as_str()));
        r.push(self.s3_line(FocusField::SecretAccessKey, "Secret Access Key: ", "[hidden]"));
        let ps = crate::text::bool_to_string(c.path_style);
        r.push(concat2("Path Style: ", ps.as_str()));
        assert(crate::text::texts(r@) =~= s3_settings_lines_spec(*self));
        r
    }

    /// The rows of the PostgreSQL settings panel: host, port, user name,
    /// password (shown only while it is edited, else `[hidden]`, or nothing
    /// when empty), database, and SSL as `Yes`/`No`; each row carries the
    /// field it shows.
    pub fn postgres_settings_rows(&self) -> (r: Vec<SettingsRow>)
        ensures
            row_texts(r@) == postgres_rows_spec(*self),
    {
        let c = &self.pg_config;
        let mut r: Vec<SettingsRow> = Vec::new();
        push_row(&mut r, "Host", c.get_field_value(FocusField::PgHost), FocusField::PgHost);
        push_row(&mut r, "Port", c.get_field_value(FocusField::PgPort), FocusField::PgPort);
        push_row(&mut r, "Username", c.get_field_value(FocusField::PgUsername), FocusField::PgUsername);
        let editing_password = self.focus == FocusField::PgPassword && match self.input_mode {
            InputMode::Editing => true,
            InputMode::Normal => false,
        };
        push_row(&mut r, "Password", c.password_display(editing_password), FocusField::PgPassword);
        push_row(&mut r, "Database", c.get_field_value(FocusField::PgDbName), FocusField::PgDbName);
        let ssl = if c.use_ssl {
            String::from_str("Yes")
        } else {
            String::from_str("No")
        };
        push_row(&mut r, "Use SSL", ssl, FocusField::PgSsl);
        r
    }

    /// The rows of the Elasticsearch settings panel: host and index.
    pub fn elasticsearch_settings_rows(&self) -> (r: Vec<SettingsRow>)
        ensures
            row_texts(r@) == elasticsearch_rows_spec(*self),
    {
        let c = &self.es_config;
        let mut r: Vec<SettingsRow> = Vec::new();
        push_row(&mut r, "Host", c.get_field_value(FocusField::EsHost), FocusField::EsHost);
        push_row(&mut r, "Index", c.get_field_value(FocusField::EsIndex), FocusField::EsIndex);
        r
    }

    /// The rows of the Qdrant settings panel: host, collection, and API key
    /// (shown only while it is edited, else `[hidden]`, or nothing when empty).
    pub fn qdrant_settings_rows(&self) -> (r: Vec<SettingsRow>)
        ensures
            row_texts(r@) == qdrant_rows_spec(*self),
    {
        let c = &self.qdrant_config;
        let mut r: Vec<SettingsRow> = Vec::new();
        push_row(&mut r, "Host", c.get_field_value(FocusField::EsHost), FocusField::EsHost);
        push_row(&mut r, "Collection", c.get_field_value(FocusField::EsIndex), FocusField::EsIndex);
        let editing_key = self.focus == FocusField::QdrantApiKey && match self.input_mode {
            InputMode::Editing => true,
            InputMode::Normal => false,
        };
        push_row(&mut r, "API Key", c.api_key_display(editing_key), FocusField::QdrantApiKey);
        r
    }

    /// Start restoring `snapshot`: the restore popup shows at 0%, and the
    /// settings of the selected restore target are checked — PostgreSQL
    /// needs a host and a port, Elasticsearch a host and an index, Qdrant a
    /// host and a collection.
    pub fn begin_restore(&mut self, snapshot: &BackupMetadata) -> (r: Result<RestoreRequest, String>)
        ensures
            *final(self) == (RustoredApp {
                popup_state: PopupState::Restoring(*snapshot, 0),
                ..*old(self)
            }),
            match old(self).restore_target {
                RestoreTarget::Postgres => {
                    let c = old(self).pg_config;
                    &&& c.host is None ==> r is Err && r->Err_0@ == "PostgreSQL host not specified"@
                    &&& c.host is Some && c.port is None ==> r is Err && r->Err_0@
                        == "PostgreSQL port not specified"@
                    &&& c.host is Some && c.port is Some ==> r is Ok && r->Ok_0
                        == RestoreRequest::Postgres(
                        PgConnectionRequest {
                            host: c.host->Some_0,
                            port: c.port->Some_0,
                            username: c.username,
                            password: c.password,
                            use_ssl: c.use_ssl,
                        },
                    )
                },
                RestoreTarget::Elasticsearch => {
                    let c = old(self).es_config;
                    &&& c.host is None ==> r is Err && r->Err_0@ == "Elasticsearch host not specified"@
                    &&& c.host is Some && c.index is None ==> r is Err && r->Err_0@
                        == "Elasticsearch index not specified"@
                    &&& c.host is Some && c.index is Some ==> r is Ok && r->Ok_0
                        == RestoreRequest::Elasticsearch { host: c.host->Some_0, index: c.index->Some_0 }
                },
                RestoreTarget::Qdrant => {
                    let c = old(self).qdrant_config;
                    &&& c.host is None ==> r is Err && r->Err_0@ == "Qdrant host not specified"@
                    &&& c.host is Some && c.collection is None ==> r is Err && r->Err_0@
                        == "Qdrant collection not specified"@
                    &&& c.host is Some && c.collection is Some ==> r is Ok && r->Ok_0
                        == RestoreRequest::Qdrant {
                        host: c.host->Some_0,
                        collection: c.collection->Some_0,
                        api_key: c.api_key,
                    }
                },
            },
    {
        self.popup_state = PopupState::Restoring(snapshot.clone(), 0);
        match self.restore_target {
            RestoreTarget::Postgres => {
                let target = crate::targets::PostgresRestoreTarget { config: self.pg_config.clone() };
                match target.connection_request() {
                    Ok(req) => Ok(RestoreRequest::Postgres(req)),
                    Err(e) => Err(e),
                }
            },
            RestoreTarget::Elasticsearch => {
                let target = crate::targets::ElasticsearchRestoreTarget {
                    config: self.es_config.clone(),
                };
                match target.restore_request() {
                    Ok((host, index)) => Ok(RestoreRequest::Elasticsearch { host, index }),
                    Err(e) => Err(e),
                }
            },
            RestoreTarget::Qdrant => {
                let target = crate::targets::QdrantRestoreTarget { config: self.qdrant_config.clone() };
                match target.restore_request() {
                    Ok((host, collection, api_key)) => Ok(
                        RestoreRequest::Qdrant { host, collection, api_key },
                    ),
                    Err(e) => Err(e),
                }
            },
        }
    }

    /// Finish restoring `snapshot`: the restore popup shows 100%, and a
    /// failure is reported as `Restore failed: <error>`.
    pub fn finish_restore(&mut self, snapshot: &BackupMetadata, outcome: Result<(), String>) -> (r:
        Result<(), String>)
        ensures
            *final(self) == (RustoredApp {
                popup_state: PopupState::Restoring(*snapshot, 100),
                ..*old(self)
            }),
            match outcome {
                Ok(()) => r is Ok,
                Err(e) => r is Err && r->Err_0@ == "Restore failed: "@ + e@,
            },
    {
        self.popup_state = PopupState::Restoring(snapshot.clone(), 100);
        match outcome {
            Ok(()) => Ok(()),
            Err(e) => Err(concat2("Restore failed: ", e.as_str())),
        }
    }
}

/// Secrets stay hidden outside editing: unless the secret access key is
/// being edited its line reads `Secret Access Key: [hidden]`, and unless the
/// PostgreSQL password (or Qdrant API key) is being edited it shows as
/// `[hidden]`, or as nothing when it is empty.
pub proof fn law_secrets_hidden_unless_edited(a: RustoredApp)
    ensures
        !editing(a, FocusField::SecretAccessKey) ==> s3_settings_lines_spec(a)[5]
            == "Secret Access Key: [hidden]"@,
        !editing(a, FocusField::PgPassword) ==> (secret_display(a.pg_config@.password, false)
            == "[hidden]"@ || secret_display(a.pg_config@.password, false).len() == 0),
        !editing(a, FocusField::QdrantApiKey) ==> (secret_display(a.qdrant_config@.api_key, false)
            == "[hidden]"@ || secret_display(a.qdrant_config@.api_key, false).len() == 0),
{
    reveal_strlit("Secret Access Key: ");
    reveal_strlit("[hidden]");
    reveal_strlit("Secret Access Key: [hidden]");
    assert("Secret Access Key: "@ + "[hidden]"@ =~= "Secret Access Key: [hidden]"@);
}

} // verus!
