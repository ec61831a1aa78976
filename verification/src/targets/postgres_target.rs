//! The PostgreSQL restore target.

use vstd::prelude::*;
use vstd::string::*;
use crate::text::{concat2, decimal, u16_to_string};
use crate::ui::models::PostgresConfig;
use crate::ui::models::postgres_config::clone_opt;

verus! {

/// PostgreSQL restore target.
#[derive(Debug)]
pub struct PostgresRestoreTarget {
    pub config: PostgresConfig,
}

/// Where and how to connect to PostgreSQL for a restore or a connection test.
#[derive(Debug)]
pub struct PgConnectionRequest {
    pub host: String,
    pub port: u16,
    pub username: Option<String>,
    pub password: Option<String>,
    pub use_ssl: bool,
}

impl PostgresRestoreTarget {
    /// The name of this restore target type.
    pub fn name(&self) -> (r: &'static str)
        ensures
            r@ == "PostgreSQL"@,
    {
        "PostgreSQL"
    }

    /// A PostgreSQL target is configured when its host, port and database are set.
    pub fn is_configured(&self) -> (r: bool)
        ensures
            r == (self.config.host is Some && self.config.port is Some && self.config.db_name is Some),
    {
        self.config.host.is_some() && self.config.port.is_some() && self.config.db_name.is_some()
    }

    /// The configuration fields a PostgreSQL target requires.
    pub fn required_fields(&self) -> (r: Vec<&'static str>)
        ensures
            r@.map_values(|s: &str| s@) == seq!["host"@, "port"@, "database"@],
    {
        let r = vec!["host", "port", "database"];
        assert(r@.map_values(|s: &str| s@) =~= seq!["host"@, "port"@, "database"@]);
        r
    }

    /// The connection a restore or a connection test uses: the host and
    /// port are required, the credentials and SSL choice are passed on.
    pub fn connection_request(&self) -> (r: Result<PgConnectionRequest, String>)
        ensures
            self.config.host is None ==> r is Err && r->Err_0@ == "PostgreSQL host not specified"@,
            self.config.host is Some && self.config.port is None ==> r is Err && r->Err_0@
                == "PostgreSQL port not specified"@,
            self.config.host is Some && self.config.port is Some ==> r is Ok && r->Ok_0
                == (PgConnectionRequest {
                host: self.config.host->Some_0,
                port: self.config.port->Some_0,
                username: self.config.username,
                password: self.config.password,
                use_ssl: self.config.use_ssl,
            }),
    {
        let host = match &self.config.host {
            Some(h) => h.clone(),
            None => return Err(String::from_str("PostgreSQL host not specified")),
        };
        let port = match self.config.port {
            Some(p) => p,
            None => return Err(String::from_str("PostgreSQL port not specified")),
        };
        Ok(
            PgConnectionRequest {
                host,
                port,
                username: clone_opt(&self.config.username),
                password: clone_opt(&self.config.password),
                use_ssl: self.config.use_ssl,
            },
        )
    }

    /// The outcome of a restore, given the name of the database the snapshot
    /// went into or the error of the restore.
    pub fn restore_outcome(result: Result<String, String>) -> (r: Result<String, String>)
        ensures
            match result {
                Ok(db) => r is Ok && r->Ok_0@ == "Successfully restored to database: "@ + db@,
                Err(e) => r is Err && r->Err_0@ == "Failed to restore to PostgreSQL: "@ + e@,
            },
    {
        match result {
            Ok(db) => Ok(concat2("Successfully restored to database: ", db.as_str())),
            Err(e) => Err(concat2("Failed to restore to PostgreSQL: ", e.as_str())),
        }
    }

    /// The outcome of a connection test of `request`, given whether connecting succeeded.
    pub fn connection_test_outcome(request: &PgConnectionRequest, result: Result<(), String>) -> (r:
        Result<String, String>)
        ensures
            match result {
                Ok(()) => r is Ok && r->Ok_0@ == "Successfully connected to PostgreSQL at "@
                    + request.host@ + ":"@ + decimal(request.port as nat),
                Err(e) => r is Err && r->Err_0@ == "Failed to connect to PostgreSQL: "@ + e@,
            },
    {
        match result {
            Ok(()) => {
                let mut m = String::from_str("Successfully connected to PostgreSQL at ");
                m.append(request.host.as_str());
                m.append(":");
                let p = u16_to_string(request.port);
                m.append(p.as_str());
                Ok(m)
            },
            Err(e) => Err(concat2("Failed to connect to PostgreSQL: ", e.as_str())),
        }
    }
}

} // verus!
