//! Restoring a snapshot file into PostgreSQL with `psql`.

use vstd::prelude::*;
use vstd::string::*;
use crate::backup::PgCommand;
use crate::text::{concat2, push_text, texts};

verus! {

/// The `psql` run that executes the snapshot file `file_path` against the
/// database at `connection_string`.
pub fn restore_postgres(file_path: &str, connection_string: &str) -> (r: PgCommand)
    ensures
        r.program@ == "psql"@,
        texts(r.args@) == seq![connection_string@, "-f"@, file_path@],
        r.env@.len() == 0,
{
    let mut args: Vec<String> = Vec::new();
    push_text(&mut args, connection_string);
    push_text(&mut args, "-f");
    push_text(&mut args, file_path);
    assert(texts(args@) =~= seq![connection_string@, "-f"@, file_path@]);
    PgCommand { program: String::from_str("psql"), args, env: Vec::new() }
}

/// The error of a `psql` run that failed.
pub fn restore_failed_message(stderr: &str) -> (r: String)
    ensures
        r@ == "Postgres restore failed: "@ + stderr@,
{
    concat2("Postgres restore failed: ", stderr)
}

} // verus!
