//! PostgreSQL database management: the SQL statements that list, create,
//! clone, drop, rename and re-own databases and change passwords, the names
//! of new databases, and the plan of a snapshot restore.

use vstd::prelude::*;
use vstd::string::*;
use crate::backup::{PgCommand, opt_str, restore_args, restore_display, restore_env};
use crate::text::{concat2, concat3, pair_texts, push_char, texts};

verus! {

/// `name` with every `"` in it doubled.
pub open spec fn doubled(name: Seq<char>) -> Seq<char>
    decreases name.len(),
{
    if name.len() == 0 {
        Seq::empty()
    } else {
        doubled(name.drop_last()) + if name.last() == '"' {
            seq!['"', '"']
        } else {
            seq![name.last()]
        }
    }
}

/// A double-quoted SQL identifier: the name between double quotes, with
/// each double quote inside it doubled, so that any name stays one identifier.
pub open spec fn quoted(name: Seq<char>) -> Seq<char> {
    seq!['"'] + doubled(name) + seq!['"']
}

/// The text of a quoted identifier's body with each pair of double quotes
/// read back as one.
pub open spec fn undoubled(body: Seq<char>) -> Seq<char>
    decreases body.len(),
{
    if body.len() >= 2 && body.last() == '"' && body[body.len() - 2] == '"' {
        undoubled(body.subrange(0, body.len() - 2)).push('"')
    } else if body.len() > 0 {
        undoubled(body.drop_last()).push(body.last())
    } else {
        Seq::empty()
    }
}

/// Reading the body of a quoted identifier back gives the name it was made
/// from, whatever double quotes the name holds.
pub proof fn law_quoted_name_reads_back(name: Seq<char>)
    ensures
        undoubled(doubled(name)) == name,
    decreases name.len(),
{
    if name.len() > 0 {
        let rest = name.drop_last();
        law_quoted_name_reads_back(rest);
        let d = doubled(name);
        if name.last() == '"' {
            assert(d.subrange(0, d.len() - 2) =~= doubled(rest));
        } else {
            assert(d.drop_last() =~= doubled(rest));
        }
        assert(undoubled(d) =~= name);
    }
}

/// The quoted SQL identifier for `name` (see [`quoted`]).
pub fn quote_identifier(name: &str) -> (r: String)
    ensures
        r@ == quoted(name@),
{
    let n = name.unicode_len();
    let mut r = String::new();
    push_char(&mut r, '"');
    let mut i: usize = 0;
    while i < n
        invariant
            n == name@.len(),
            i <= n,
            r@ == seq!['"'] + doubled(name@.subrange(0, i as int)),
        decreases n - i,
    {
        let c = name.get_char(i);
        let ghost before = name@.subrange(0, i as int);
        assert(name@.subrange(0, i + 1).drop_last() =~= before);
        push_char(&mut r, c);
        if c == '"' {
            push_char(&mut r, '"');
        }
        i = i + 1;
        assert(r@ =~= seq!['"'] + doubled(name@.subrange(0, i as int)));
    }
    assert(name@.subrange(0, n as int) =~= name@);
    push_char(&mut r, '"');
    r
}

/// The query that lists the databases that are not templates.
pub fn list_databases_query() -> (r: String)
    ensures
        r@ == "SELECT datname FROM pg_database WHERE datistemplate = false;"@,
{
    String::from_str("SELECT datname FROM pg_database WHERE datistemplate = false;")
}

/// `CREATE DATABASE "<name>";`
pub fn create_database_query(name: &str) -> (r: String)
    ensures
        r@ == "CREATE DATABASE "@ + quoted(name@) + ";"@,
{
    let mut r = String::from_str("CREATE DATABASE ");
    let q_name = quote_identifier(name);
    r.append(q_name.as_str());
    r.append(";");
    r
}

/// `CREATE DATABASE "<new_name>" WITH TEMPLATE "<name>";`
pub fn clone_database_query(new_name: &str, name: &str) -> (r: String)
    ensures
        r@ == "CREATE DATABASE "@ + quoted(new_name@) + " WITH TEMPLATE "@ + quoted(name@) + ";"@,
{
    let mut r = String::from_str("CREATE DATABASE ");
    let q_new_name = quote_identifier(new_name);
    r.append(q_new_name.as_str());
    r.append(" WITH TEMPLATE ");
    let q_name = quote_identifier(name);
    r.append(q_name.as_str());
    r.append(";");
    r
}

/// `DROP DATABASE "<name>";`
pub fn drop_database_query(name: &str) -> (r: String)
    ensures
        r@ == "DROP DATABASE "@ + quoted(name@) + ";"@,
{
    let mut r = String::from_str("DROP DATABASE ");
    let q_name = quote_identifier(name);
    r.append(q_name.as_str());
    r.append(";");
    r
}

/// `DROP DATABASE "<name>" WITH (FORCE);` — ends the connections to the database first.
pub fn drop_database_with_force_query(name: &str) -> (r: String)
    ensures
        r@ == "DROP DATABASE "@ + quoted(name@) + " WITH (FORCE);"@,
{
    let mut r = String::from_str("DROP DATABASE ");
    let q_name = quote_identifier(name);
    r.append(q_name.as_str());
    r.append(" WITH (FORCE);");
    r
}

/// `ALTER DATABASE "<old_name>" RENAME TO "<new_name>";`
pub fn rename_database_query(old_name: &str, new_name: &str) -> (r: String)
    ensures
        r@ == "ALTER DATABASE "@ + quoted(old_name@) + " RENAME TO "@ + quoted(new_name@) + ";"@,
{
    let mut r = String::from_str("ALTER DATABASE ");
    let q_old_name = quote_identifier(old_name);
    r.append(q_old_name.as_str());
    r.append(" RENAME TO ");
    let q_new_name = quote_identifier(new_name);
    r.append(q_new_name.as_str());
    r.append(";");
    r
}

/// `ALTER DATABASE "<name>" OWNER TO "<owner>";`
pub fn set_database_owner_query(name: &str, owner: &str) -> (r: String)
    ensures
        r@ == "ALTER DATABASE "@ + quoted(name@) + " OWNER TO "@ + quoted(owner@) + ";"@,
{
    let mut r = String::from_str("ALTER DATABASE ");
    let q_name = quote_identifier(name);
    r.append(q_name.as_str());
    r.append(" OWNER TO ");
    let q_owner = quote_identifier(owner);
    r.append(q_owner.as_str());
    r.append(";");
    r
}

/// `ALTER USER "<user>" WITH PASSWORD '<password>';`
pub fn change_password_query(user: &str, password: &str) -> (r: String)
    ensures
        r@ == "ALTER USER "@ + quoted(user@) + " WITH PASSWORD '"@ + password@ + "';"@,
{
    let mut r = String::from_str("ALTER USER ");
    let q_user = quote_identifier(user);
    r.append(q_user.as_str());
    r.append(" WITH PASSWORD '");
    r.append(password);
    r.append("';");
    r
}

/// The error of a failed rename.
pub fn rename_failed_message(error: &str) -> (r: String)
    ensures
        r@ == "Failed to rename database: "@ + error@,
{
    concat2("Failed to rename database: ", error)
}

/// The error of a failed change of owner.
pub fn set_owner_failed_message(error: &str) -> (r: String)
    ensures
        r@ == "Failed to change database owner: "@ + error@,
{
    concat2("Failed to change database owner: ", error)
}

/// The error of a failed password change.
pub fn change_password_failed_message(error: &str) -> (r: String)
    ensures
        r@ == "Failed to change user password: "@ + error@,
{
    concat2("Failed to change user password: ", error)
}

/// A random English word (random_word's `gen` for English), as a `String`.
/// Trusted: the word is drawn at random from random_word's English list,
/// whose words are never empty; nothing more is stated of which word it is.
#[verifier::external_body]
fn random_english_word() -> (r: String)
    ensures
        r@.len() > 0,
{
    random_word::gen(random_word::Lang::En).to_string()
}

/// The name of the clone of database `name` made with the word `word`:
/// `<name>_clone_<word>`.
pub fn clone_database_name(name: &str, word: &str) -> (r: String)
    ensures
        r@ == name@ + "_clone_"@ + word@,
{
    concat3(name, "_clone_", word)
}

/// A fresh name for a clone of database `name`, made with a random English
/// word; the result is the word and the name.
pub fn new_clone_database_name(name: &str) -> (r: (String, String))
    ensures
        r.0@.len() > 0,
        r.1@ == name@ + "_clone_"@ + r.0@,
{
    let word = random_english_word();
    let new_name = clone_database_name(name, word.as_str());
    (word, new_name)
}

/// The name of the database a snapshot is restored into, made with `word`:
/// `<word>-restored`.
pub fn restore_database_name(word: &str) -> (r: String)
    ensures
        r@ == word@ + "-restored"@,
{
    concat2(word, "-restored")
}

/// A fresh name for a database to restore a snapshot into, made with a
/// random English word; the result is the word and the name.
pub fn new_restore_database_name() -> (r: (String, String))
    ensures
        r.0@.len() > 0,
        r.1@ == r.0@ + "-restored"@,
{
    let word = random_english_word();
    let name = restore_database_name(word.as_str());
    (word, name)
}

/// What a snapshot restore does: create the database `new_dbname` over a
/// connection to the server, then run `restore` (logged as `display`).
#[derive(Debug)]
pub struct RestoreSnapshotPlan {
    pub new_dbname: String,
    pub create_query: String,
    pub restore: PgCommand,
    pub display: String,
}

fn as_opt_str(o: &Option<String>) -> (r: Option<&str>)
    ensures
        opt_str(r) == crate::ui::models::opt_view(*o),
{
    match o {
        Some(s) => Some(s.as_str()),
        None => None,
    }
}

/// The plan of restoring the snapshot file `file_path` into a new database
/// `new_dbname` on `host:port`: the database is created, then `pg_restore`
/// fills it with the same credentials and SSL choice.
pub fn plan_restore_snapshot(
    host: &str,
    port: u16,
    username: &Option<String>,
    password: &Option<String>,
    use_ssl: bool,
    file_path: &str,
    new_dbname: String,
) -> (r: RestoreSnapshotPlan)
    ensures
        r.new_dbname == new_dbname,
        r.create_query@ == "CREATE DATABASE "@ + quoted(new_dbname@) + ";"@,
        r.restore.program@ == "pg_restore"@,
        texts(r.restore.args@) == restore_args(
            new_dbname@,
            file_path@,
            host@,
            port,
            crate::ui::models::opt_view(*username),
        ),
        pair_texts(r.restore.env@) == restore_env(crate::ui::models::opt_view(*password), use_ssl),
        r.display@ == restore_display(
            new_dbname@,
            file_path@,
            host@,
            port,
            crate::ui::models::opt_view(*username),
        ),
{
    let create_query = create_database_query(new_dbname.as_str());
    let (restore, display) = crate::backup::restore_database(
        new_dbname.as_str(),
        file_path,
        host,
        port,
        as_opt_str(username),
        as_opt_str(password),
        use_ssl,
    );
    RestoreSnapshotPlan { new_dbname, create_query, restore, display }
}

/// The error of a failed creation of the database a snapshot is restored into.
pub fn create_restore_database_failed_message(name: &str, error: &str) -> (r: String)
    ensures
        r@ == "Failed to create new database "@ + name@ + ": "@ + error@,
{
    let mut r = String::from_str("Failed to create new database ");
    r.append(name);
    r.append(": ");
    r.append(error);
    r
}

/// The outcome of a snapshot restore, given how the `pg_restore` task ended:
/// the new database's name when it succeeded; otherwise its error, or the
/// error of a task that did not finish.
pub fn restore_snapshot_outcome(new_dbname: String, task: Result<Result<(), String>, String>) -> (r:
    Result<String, String>)
    ensures
        match task {
            Ok(Ok(())) => r == Ok::<String, String>(new_dbname),
            Ok(Err(e)) => r is Err && r->Err_0@ == "pg_restore task failed: "@ + e@,
            Err(e) => r is Err && r->Err_0@ == "pg_restore task issues: "@ + e@,
        },
{
    match task {
        Ok(Ok(())) => Ok(new_dbname),
        Ok(Err(e)) => Err(concat2("pg_restore task failed: ", e.as_str())),
        Err(e) => Err(concat2("pg_restore task issues: ", e.as_str())),
    }
}

/// Where and how to connect to the PostgreSQL server.
#[derive(Debug)]
pub struct ConnectionSettings {
    pub host: String,
    pub port: u16,
    pub user: Option<String>,
    pub password: Option<String>,
    pub require_ssl: bool,
}

/// The connection made from the command-line settings: none at all when no
/// host, port, user name or password is given; otherwise the host
/// (`localhost` by default) and port (5432 by default), the user name and
/// password as given, and SSL required when it is switched on.
pub fn connection_settings(
    host: &Option<String>,
    port: Option<u16>,
    username: &Option<String>,
    password: &Option<String>,
    use_ssl: bool,
) -> (r: Option<ConnectionSettings>)
    ensures
        (host is None && port is None && username is None && password is None) <==> r is None,
        r matches Some(c) ==> {
            &&& c.host@ == (match *host {
                Some(h) => h@,
                None => "localhost"@,
            })
            &&& c.port == (match port {
                Some(p) => p,
                None => 5432u16,
            })
            &&& c.user == *username
            &&& c.password == *password
            &&& c.require_ssl == use_ssl
        },
{
    if host.is_none() && port.is_none() && username.is_none() && password.is_none() {
        return None;
    }
    let h = match host {
        Some(h) => h.clone(),
        None => String::from_str("localhost"),
    };
    let p = match port {
        Some(p) => p,
        None => 5432,
    };
    Some(ConnectionSettings {
        host: h,
        port: p,
        user: crate::ui::models::postgres_config::clone_opt(username),
        password: crate::ui::models::postgres_config::clone_opt(password),
        require_ssl: use_ssl,
    })
}

/// What a snapshot restore does once the creation of its database has been
/// tried: run `pg_restore`, or end with the result.
#[derive(Debug)]
pub enum RestoreSnapshotStep {
    RunRestore(PgCommand),
    Finish(Result<String, String>),
}

/// The step after trying to create the new database: when it was created,
/// `pg_restore` runs as the plan says; when it was not, the restore ends
/// with that error and `pg_restore` does not run.
pub fn after_create_database(plan: RestoreSnapshotPlan, created: Result<(), String>) -> (r: RestoreSnapshotStep)
    ensures
        match created {
            Ok(()) => r == RestoreSnapshotStep::RunRestore(plan.restore),
            Err(e) => r is Finish && r->Finish_0 is Err && r->Finish_0->Err_0@ == "Failed to create new database "@
                + plan.new_dbname@ + ": "@ + e@,
        },
{
    match created {
        Ok(()) => RestoreSnapshotStep::RunRestore(plan.restore),
        Err(e) => RestoreSnapshotStep::Finish(
            Err(create_restore_database_failed_message(plan.new_dbname.as_str(), e.as_str())),
        ),
    }
}

} // verus!
