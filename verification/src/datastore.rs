//! Restoring a dump file into a datastore named on the command line.

use vstd::prelude::*;
use vstd::string::*;
use crate::backup::{PgCommand, restore_args, restore_display, restore_env};
use crate::text::{pair_texts, str_eq, texts};
use crate::ui::models::opt_view;

verus! {

/// The datastore a `restore` command writes to.
#[derive(Debug)]
pub enum DatastoreRestoreTarget {
    Postgres,
    Elasticsearch { host: String, index: String },
    Qdrant { host: String, collection: String, api_key: Option<String> },
}

/// What restoring into a datastore comes to: a `pg_restore` run (logged as
/// its text), or a notice for targets that only report what they would do.
#[derive(Debug)]
pub enum DatastoreRestoreAction {
    RunPgRestore(PgCommand, String),
    Announce(String),
}

impl DatastoreRestoreTarget {
    /// What restoring the dump `input` into `name` does: PostgreSQL runs
    /// `pg_restore` on localhost:5432 without credentials or SSL; the other
    /// targets announce the restore they stand for.
    pub fn restore_action(&self, name: &str, input: &str) -> (r: DatastoreRestoreAction)
        ensures
            match *self {
                DatastoreRestoreTarget::Postgres => r is RunPgRestore && {
                    let (cmd, display) = (r->RunPgRestore_0, r->RunPgRestore_1);
                    &&& cmd.program@ == "pg_restore"@
                    &&& texts(cmd.args@) == restore_args(name@, input@, "localhost"@, 5432, None)
                    &&& pair_texts(cmd.env@) == restore_env(None, false)
                    &&& display@ == restore_display(name@, input@, "localhost"@, 5432, None)
                },
                DatastoreRestoreTarget::Elasticsearch { host, index } => r is Announce
                    && r->Announce_0@ == "[STUB] Would restore "@ + input@ + " to Elasticsearch at "@
                    + host@ + ", index "@ + index@,
                DatastoreRestoreTarget::Qdrant { host, collection, api_key: _ } => r is Announce
                    && r->Announce_0@ == "[STUB] Would restore "@ + input@ + " to Qdrant at "@ + host@
                    + ", collection "@ + collection@,
            },
    {
        match self {
            DatastoreRestoreTarget::Postgres => {
                let (cmd, display) = crate::backup::restore_database(
                    name,
                    input,
                    "localhost",
                    5432,
                    None,
                    None,
                    false,
                );
                DatastoreRestoreAction::RunPgRestore(cmd, display)
            },
            DatastoreRestoreTarget::Elasticsearch { host, index } => {
                let mut m = String::from_str("[STUB] Would restore ");
                m.append(input);
                m.append(" to Elasticsearch at ");
                m.append(host.as_str());
                m.append(", index ");
                m.append(index.as_str());
                DatastoreRestoreAction::Announce(m)
            },
            DatastoreRestoreTarget::Qdrant { host, collection, api_key: _ } => {
                let mut m = String::from_str("[STUB] Would restore ");
                m.append(input);
                m.append(" to Qdrant at ");
                m.append(host.as_str());
                m.append(", collection ");
                m.append(collection.as_str());
                DatastoreRestoreAction::Announce(m)
            },
        }
    }
}

/// The `host`, or `default` where none was given.
pub open spec fn host_or(host: Option<Seq<char>>, default: Seq<char>) -> Seq<char> {
    match host {
        Some(h) => h,
        None => default,
    }
}

/// The datastore named by the `restore` command's `--target`: `postgres`,
/// `elasticsearch` (host `http://localhost:9200` and index `name` unless
/// given) or `qdrant` (host `http://localhost:6333` and collection `name`
/// unless given, with the optional API key). Any other name is unknown and
/// gives `None`.
pub fn restore_target_for(
    target: &str,
    name: &str,
    es_host: Option<String>,
    es_index: Option<String>,
    qdrant_api_key: Option<String>,
) -> (r: Option<DatastoreRestoreTarget>)
    ensures
        target@ == "postgres"@ ==> r == Some(DatastoreRestoreTarget::Postgres),
        target@ == "elasticsearch"@ ==> (r matches Some(DatastoreRestoreTarget::Elasticsearch { host, index })
            && host@ == host_or(opt_view(es_host), "http://localhost:9200"@)
            && index@ == host_or(opt_view(es_index), name@)),
        target@ == "qdrant"@ ==> (r matches Some(DatastoreRestoreTarget::Qdrant { host, collection, api_key })
            && host@ == host_or(opt_view(es_host), "http://localhost:6333"@)
            && collection@ == host_or(opt_view(es_index), name@)
            && api_key == qdrant_api_key),
        target@ != "postgres"@ && target@ != "elasticsearch"@ && target@ != "qdrant"@ ==> r is None,
{
    proof {
        reveal_strlit("postgres");
        reveal_strlit("elasticsearch");
        reveal_strlit("qdrant");
        assert("postgres"@.len() == 8);
        assert("elasticsearch"@.len() == 13);
        assert("qdrant"@.len() == 6);
    }
    if str_eq(target, "postgres") {
        Some(DatastoreRestoreTarget::Postgres)
    } else if str_eq(target, "elasticsearch") {
        let host = match es_host {
            Some(h) => h,
            None => String::from_str("http://localhost:9200"),
        };
        let index = match es_index {
            Some(i) => i,
            None => String::from_str(name),
        };
        Some(DatastoreRestoreTarget::Elasticsearch { host, index })
    } else if str_eq(target, "qdrant") {
        let host = match es_host {
            Some(h) => h,
            None => String::from_str("http://localhost:6333"),
        };
        let collection = match es_index {
            Some(i) => i,
            None => String::from_str(name),
        };
        Some(DatastoreRestoreTarget::Qdrant { host, collection, api_key: qdrant_api_key })
    } else {
        None
    }
}

} // verus!
