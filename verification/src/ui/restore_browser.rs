//! A browser that restores a downloaded snapshot into the selected target.

use vstd::prelude::*;
use vstd::string::*;
use crate::targets::postgres_target::PgConnectionRequest;
use crate::text::concat2;
use crate::ui::models::{
    BackupMetadata, ElasticsearchConfig, PopupState, PostgresConfig, QdrantConfig, RestoreTarget,
    opt_text, opt_view,
};
use crate::ui::models::postgres_config::clone_opt;

verus! {

/// Browser for restoring snapshots to different targets.
#[derive(Debug)]
pub struct RestoreBrowser {
    pub restore_target: RestoreTarget,
    pub postgres_config: Option<PostgresConfig>,
    pub elasticsearch_config: Option<ElasticsearchConfig>,
    pub qdrant_config: Option<QdrantConfig>,
    pub popup_state: PopupState,
}

/// An optional text that is missing or empty.
pub open spec fn blank(o: Option<Seq<char>>) -> bool {
    opt_text(o).len() == 0
}

/// The error that stops a PostgreSQL restore with configuration `c`, if any:
/// the host, user name and database must be non-empty and the port set.
pub open spec fn pg_restore_error(c: PostgresConfig) -> Option<Seq<char>> {
    if blank(opt_view(c.host)) {
        Some("PostgreSQL host is required"@)
    } else if c.port is None {
        Some("PostgreSQL port is required"@)
    } else if blank(opt_view(c.username)) {
        Some("PostgreSQL username is required"@)
    } else if blank(opt_view(c.db_name)) {
        Some("PostgreSQL database name is required"@)
    } else {
        None
    }
}

fn is_blank(o: &Option<String>) -> (r: bool)
    ensures
        r == blank(opt_view(*o)),
{
    match o {
        Some(s) => s.as_str().is_empty(),
        None => true,
    }
}

impl RestoreBrowser {
    /// Create a new RestoreBrowser with no popup.
    pub fn new(
        restore_target: RestoreTarget,
        postgres_config: Option<PostgresConfig>,
        elasticsearch_config: Option<ElasticsearchConfig>,
        qdrant_config: Option<QdrantConfig>,
    ) -> (r: Self)
        ensures
            r == (RestoreBrowser {
                restore_target,
                postgres_config,
                elasticsearch_config,
                qdrant_config,
                popup_state: PopupState::Hidden,
            }),
    {
        RestoreBrowser {
            restore_target,
            postgres_config,
            elasticsearch_config,
            qdrant_config,
            popup_state: PopupState::Hidden,
        }
    }

    /// Make sure there is a PostgreSQL configuration, the default one if none was given.
    pub fn ensure_postgres_config(&mut self)
        ensures
            old(self).postgres_config is Some ==> *final(self) == *old(self),
            old(self).postgres_config is None ==> final(self).postgres_config is Some && (RestoreBrowser {
                postgres_config: None,
                ..*final(self)
            }) == *old(self) && final(self).postgres_config->Some_0.host is None
                && final(self).postgres_config->Some_0.port is None
                && final(self).postgres_config->Some_0.username is None
                && final(self).postgres_config->Some_0.password is None
                && !final(self).postgres_config->Some_0.use_ssl
                && final(self).postgres_config->Some_0.db_name is None,
    {
        if self.postgres_config.is_none() {
            self.postgres_config = Some(PostgresConfig::default());
        }
    }

    /// Start restoring `snapshot`: the restore popup shows at 0%. A
    /// PostgreSQL restore needs a host, a port, a user name and a database
    /// (a missing configuration counts as the default, empty one); the error
    /// is shown and returned. Elasticsearch and Qdrant restores are not
    /// implemented and fail with that message.
    pub fn begin_restore(&mut self, snapshot: &BackupMetadata) -> (r: Result<PgConnectionRequest, String>)
        ensures
            final(self).restore_target == old(self).restore_target,
            old(self).restore_target == RestoreTarget::Postgres ==> {
                let c = final(self).postgres_config->Some_0;
                &&& final(self).postgres_config is Some
                &&& old(self).postgres_config is Some ==> final(self).postgres_config == old(self).postgres_config
                &&& old(self).postgres_config is None ==> c.host is None && c.port is None
                    && c.username is None && c.password is None && !c.use_ssl && c.db_name is None
                &&& final(self).elasticsearch_config == old(self).elasticsearch_config
                &&& final(self).qdrant_config == old(self).qdrant_config
                &&& match pg_restore_error(c) {
                    Some(msg) => r is Err && r->Err_0@ == msg && final(self).popup_state is Error
                        && final(self).popup_state->Error_0@ == msg,
                    None => final(self).popup_state == PopupState::Restoring(*snapshot, 0) && r
                        == Ok::<PgConnectionRequest, String>(
                        PgConnectionRequest {
                            host: c.host->Some_0,
                            port: c.port->Some_0,
                            username: c.username,
                            password: c.password,
                            use_ssl: c.use_ssl,
                        },
                    ),
                }
            },
            old(self).restore_target == RestoreTarget::Elasticsearch ==> {
                &&& final(self).elasticsearch_config is Some
                &&& old(self).elasticsearch_config is Some ==> final(self).elasticsearch_config
                    == old(self).elasticsearch_config
                &&& final(self).postgres_config == old(self).postgres_config
                &&& final(self).qdrant_config == old(self).qdrant_config
                &&& r is Err && r->Err_0@ == "Elasticsearch restore not yet implemented"@
                &&& final(self).popup_state is Error && final(self).popup_state->Error_0@ == r->Err_0@
            },
            old(self).restore_target == RestoreTarget::Qdrant ==> {
                &&& final(self).qdrant_config is Some
                &&& old(self).qdrant_config is Some ==> final(self).qdrant_config == old(self).qdrant_config
                &&& final(self).postgres_config == old(self).postgres_config
                &&& final(self).elasticsearch_config == old(self).elasticsearch_config
                &&& r is Err && r->Err_0@ == "Qdrant restore not yet implemented"@
                &&& final(self).popup_state is Error && final(self).popup_state->Error_0@ == r->Err_0@
            },
    {
        self.popup_state = PopupState::Restoring(snapshot.clone(), 0);
        match self.restore_target {
            RestoreTarget::Postgres => {
                self.ensure_postgres_config();
                let c = match &self.postgres_config {
                    Some(c) => c,
                    None => {
                        return Err(String::from_str("PostgreSQL configuration is not available"));
                    },
                };
                let msg = if is_blank(&c.host) {
                    Some("PostgreSQL host is required")
                } else if c.port.is_none() {
                    Some("PostgreSQL port is required")
                } else if is_blank(&c.username) {
                    Some("PostgreSQL username is required")
                } else if is_blank(&c.db_name) {
                    Some("PostgreSQL database name is required")
                } else {
                    None
                };
                match msg {
                    Some(m) => {
                        let e = String::from_str(m);
                        self.popup_state = PopupState::Error(e.clone());
                        Err(e)
                    },
                    None => {
                        let host = match &c.host {
                            Some(h) => h.clone(),
                            None => String::new(),
                        };
                        let port = match c.port {
                            Some(p) => p,
                            None => 0,
                        };
                        Ok(
                            PgConnectionRequest {
                                host,
                                port,
                                username: clone_opt(&c.username),
                                password: clone_opt(&c.password),
                                use_ssl: c.use_ssl,
                            },
                        )
                    },
                }
            },
            RestoreTarget::Elasticsearch => {
                if self.elasticsearch_config.is_none() {
                    self.elasticsearch_config = Some(ElasticsearchConfig::default());
                }
                let e = String::from_str("Elasticsearch restore not yet implemented");
                self.popup_state = PopupState::Error(e.clone());
                Err(e)
            },
            RestoreTarget::Qdrant => {
                if self.qdrant_config.is_none() {
                    self.qdrant_config = Some(QdrantConfig::default());
                }
                let e = String::from_str("Qdrant restore not yet implemented");
                self.popup_state = PopupState::Error(e.clone());
                Err(e)
            },
        }
    }

    /// Report that the database to restore into could not be created.
    pub fn database_creation_failed(&mut self, error: &str) -> (r: String)
        ensures
            r@ == "Failed to create restore database: "@ + error@,
            final(self).popup_state == PopupState::Error(r),
            *final(self) == (RestoreBrowser { popup_state: final(self).popup_state, ..*old(self) }),
    {
        let e = concat2("Failed to create restore database: ", error);
        self.popup_state = PopupState::Error(e.clone());
        e
    }

    /// Report how the restore into `db_name` ended.
    pub fn restore_finished(&mut self, db_name: &str, result: Result<(), String>) -> (r: Result<
        (),
        String,
    >)
        ensures
            *final(self) == (RestoreBrowser { popup_state: final(self).popup_state, ..*old(self) }),
            match result {
                Ok(()) => r is Ok && final(self).popup_state is Success
                    && final(self).popup_state->Success_0@ == "Successfully restored to database: "@
                    + db_name@,
                Err(e) => r is Err && r->Err_0@ == "Failed to restore database: "@ + e@
                    && final(self).popup_state == PopupState::Error(r->Err_0),
            },
    {
        match result {
            Ok(()) => {
                self.popup_state = PopupState::Success(concat2("Successfully restored to database: ", db_name));
                Ok(())
            },
            Err(e) => {
                let m = concat2("Failed to restore database: ", e.as_str());
                self.popup_state = PopupState::Error(m.clone());
                Err(m)
            },
        }
    }
}

} // verus!
