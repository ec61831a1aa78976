//! The `pg_dump` and `pg_restore` invocations that back up and restore a database.

use vstd::prelude::*;
use vstd::string::*;
use crate::text::{concat3, decimal, pair_texts, push_pair, push_text, texts, u16_to_string};

verus! {

/// An external program to run: its name, its arguments, and the
/// environment variables to set for it.
#[derive(Debug)]
pub struct PgCommand {
    pub program: String,
    pub args: Vec<String>,
    pub env: Vec<(String, String)>,
}

/// `["flag", value]` when the value is given, else nothing.
pub open spec fn optional_flag(flag: Seq<char>, value: Option<Seq<char>>) -> Seq<Seq<char>> {
    match value {
        Some(v) => seq![flag, v],
        None => Seq::empty(),
    }
}

/// The arguments of `pg_dump` for a database `name` written to `output`.
pub open spec fn dump_args(
    name: Seq<char>,
    output: Seq<char>,
    host: Seq<char>,
    port: u16,
    username: Option<Seq<char>>,
    password: Option<Seq<char>>,
) -> Seq<Seq<char>> {
    seq!["--dbname"@, name, "--file"@, output, "--host"@, host, "--port"@, decimal(port as nat)]
        + optional_flag("--username"@, username) + optional_flag("--password"@, password)
}

/// The environment of `pg_dump`: SSL is required when asked for.
pub open spec fn dump_env(ssl: bool) -> Seq<(Seq<char>, Seq<char>)> {
    if ssl {
        seq![("PGSSLMODE"@, "require"@)]
    } else {
        Seq::empty()
    }
}

/// The arguments of `pg_restore` for restoring `input` into database `name`
/// (created anew, dropping what exists).
pub open spec fn restore_args(
    name: Seq<char>,
    input: Seq<char>,
    host: Seq<char>,
    port: u16,
    username: Option<Seq<char>>,
) -> Seq<Seq<char>> {
    seq![
        "--host"@,
        host,
        "--port"@,
        decimal(port as nat),
        "-C"@,
        "-c"@,
        "--if-exists"@,
        "--dbname"@,
        name,
        input,
    ] + optional_flag("--username"@, username)
}

/// The environment of `pg_restore`: the SSL mode, and the password when given.
pub open spec fn restore_env(password: Option<Seq<char>>, ssl: bool) -> Seq<(Seq<char>, Seq<char>)> {
    seq![("PGSSLMODE"@, if ssl {
        "require"@
    } else {
        "disable"@
    })] + match password {
        Some(p) => seq![("PGPASSWORD"@, p)],
        None => Seq::empty(),
    }
}

/// The text a `pg_restore` run is logged as (it leaves out the password).
pub open spec fn restore_display(
    name: Seq<char>,
    input: Seq<char>,
    host: Seq<char>,
    port: u16,
    username: Option<Seq<char>>,
) -> Seq<char> {
    "pg_restore --host "@ + host + " --port "@ + decimal(port as nat)
        + " -C -c --if-exists --dbname "@ + name + " "@ + match username {
        Some(u) => " --username "@ + u,
        None => Seq::empty(),
    } + " "@ + input
}

pub open spec fn opt_str(o: Option<&str>) -> Option<Seq<char>> {
    match o {
        Some(s) => Some(s@),
        None => None,
    }
}

/// The `pg_dump` run that dumps database `name` into the file `output`.
pub fn dump_database(
    name: &str,
    output: &str,
    host: &str,
    port: u16,
    username: Option<&str>,
    password: Option<&str>,
    ssl: bool,
) -> (r: PgCommand)
    ensures
        r.program@ == "pg_dump"@,
        texts(r.args@) == dump_args(name@, output@, host@, port, opt_str(username), opt_str(password)),
        pair_texts(r.env@) == dump_env(ssl),
{
    let mut env: Vec<(String, String)> = Vec::new();
    if ssl {
        push_pair(&mut env, "PGSSLMODE", "require");
    }
    let mut args: Vec<String> = Vec::new();
    push_text(&mut args, "--dbname");
    push_text(&mut args, name);
    push_text(&mut args, "--file");
    push_text(&mut args, output);
    push_text(&mut args, "--host");
    push_text(&mut args, host);
    push_text(&mut args, "--port");
    let port_text = u16_to_string(port);
    push_text(&mut args, port_text.as_str());
    let ghost base = texts(args@);
    match username {
        Some(user) => {
            push_text(&mut args, "--username");
            push_text(&mut args, user);
        },
        None => {},
    }
    let ghost with_user = texts(args@);
    match password {
        Some(pass) => {
            push_text(&mut args, "--password");
            push_text(&mut args, pass);
        },
        None => {},
    }
    proof {
        assert(with_user =~= base + optional_flag("--username"@, opt_str(username)));
        assert(texts(args@) =~= with_user + optional_flag("--password"@, opt_str(password)));
        assert(pair_texts(env@) =~= dump_env(ssl));
    }
    PgCommand { program: String::from_str("pg_dump"), args, env }
}

/// The `pg_restore` run that restores the file `input` into database `name`,
/// with the text it is logged as.
pub fn restore_database(
    name: &str,
    input: &str,
    host: &str,
    port: u16,
    username: Option<&str>,
    password: Option<&str>,
    ssl: bool,
) -> (r: (PgCommand, String))
    ensures
        r.0.program@ == "pg_restore"@,
        texts(r.0.args@) == restore_args(name@, input@, host@, port, opt_str(username)),
        pair_texts(r.0.env@) == restore_env(opt_str(password), ssl),
        r.1@ == restore_display(name@, input@, host@, port, opt_str(username)),
{
    let mut env: Vec<(String, String)> = Vec::new();
    if ssl {
        push_pair(&mut env, "PGSSLMODE", "require");
    } else {
        push_pair(&mut env, "PGSSLMODE", "disable");
    }
    let mut args: Vec<String> = Vec::new();
    push_text(&mut args, "--host");
    push_text(&mut args, host);
    push_text(&mut args, "--port");
    let port_text = u16_to_string(port);
    push_text(&mut args, port_text.as_str());
    push_text(&mut args, "-C");
    push_text(&mut args, "-c");
    push_text(&mut args, "--if-exists");
    push_text(&mut args, "--dbname");
    push_text(&mut args, name);
    push_text(&mut args, input);
    let ghost base = texts(args@);
    match username {
        Some(user) => {
            push_text(&mut args, "--username");
            push_text(&mut args, user);
        },
        None => {},
    }
    let ghost env_base = pair_texts(env@);
    match password {
        Some(pass) => push_pair(&mut env, "PGPASSWORD", pass),
        None => {},
    }
    let mut display = String::from_str("pg_restore --host ");
    display.append(host);
    display.append(" --port ");
    display.append(port_text.as_str());
    display.append(" -C -c --if-exists --dbname ");
    display.append(name);
    display.append(" ");
    match username {
        Some(user) => {
            display.append(" --username ");
            display.append(user);
        },
        None => {},
    }
    display.append(" ");
    display.append(input);
    proof {
        assert(texts(args@) =~= base + optional_flag("--username"@, opt_str(username)));
        assert(pair_texts(env@) =~= restore_env(opt_str(password), ssl));
        assert(display@ =~= restore_display(name@, input@, host@, port, opt_str(username)));
    }
    (PgCommand { program: String::from_str("pg_restore"), args, env }, display)
}

/// The error of a PostgreSQL tool that ran and failed: `<tool> failed: <stderr>`.
pub fn tool_failure_message(tool: &str, stderr: &str) -> (r: String)
    ensures
        r@ == tool@ + " failed: "@ + stderr@,
{
    concat3(tool, " failed: ", stderr)
}

} // verus!
