use rustored::backup::{dump_database, restore_database, tool_failure_message};
use rustored::datastore::{restore_target_for, DatastoreRestoreAction, DatastoreRestoreTarget};
use rustored::postgres::{
    after_create_database, quote_identifier, RestoreSnapshotStep,
    change_password_query, clone_database_name, clone_database_query, connection_settings,
    create_database_query, create_restore_database_failed_message, drop_database_query,
    drop_database_with_force_query, list_databases_query, new_clone_database_name,
    new_restore_database_name, plan_restore_snapshot, rename_database_query, rename_failed_message,
    restore_database_name, restore_snapshot_outcome, set_database_owner_query,
};

fn strs(v: &[String]) -> Vec<&str> {
    v.iter().map(|s| s.as_str()).collect()
}

#[test]
fn database_queries() {
    assert_eq!(list_databases_query(), "SELECT datname FROM pg_database WHERE datistemplate = false;");
    assert_eq!(create_database_query("shop"), "CREATE DATABASE \"shop\";");
    assert_eq!(clone_database_query("shop_clone_x", "shop"), "CREATE DATABASE \"shop_clone_x\" WITH TEMPLATE \"shop\";");
    assert_eq!(drop_database_query("shop"), "DROP DATABASE \"shop\";");
    assert_eq!(drop_database_with_force_query("shop"), "DROP DATABASE \"shop\" WITH (FORCE);");
    assert_eq!(rename_database_query("a", "b"), "ALTER DATABASE \"a\" RENAME TO \"b\";");
    assert_eq!(set_database_owner_query("a", "bob"), "ALTER DATABASE \"a\" OWNER TO \"bob\";");
    assert_eq!(change_password_query("bob", "pw"), "ALTER USER \"bob\" WITH PASSWORD 'pw';");
    assert_eq!(rename_failed_message("boom"), "Failed to rename database: boom");
}

#[test]
fn database_names() {
    assert_eq!(clone_database_name("shop", "apple"), "shop_clone_apple");
    assert_eq!(restore_database_name("apple"), "apple-restored");
    let (word, name) = new_clone_database_name("shop");
    assert!(!word.is_empty());
    assert_eq!(name, format!("shop_clone_{}", word));
    let (word, name) = new_restore_database_name();
    assert!(!word.is_empty());
    assert_eq!(name, format!("{}-restored", word));
}

#[test]
fn dump_command() {
    let cmd = dump_database("shop", "/tmp/shop.dump", "db.local", 5433, Some("bob"), Some("pw"), true);
    assert_eq!(cmd.program, "pg_dump");
    assert_eq!(
        strs(&cmd.args),
        vec!["--dbname", "shop", "--file", "/tmp/shop.dump", "--host", "db.local", "--port", "5433", "--username", "bob", "--password", "pw"]
    );
    assert_eq!(cmd.env, vec![("PGSSLMODE".to_string(), "require".to_string())]);

    let cmd = dump_database("shop", "out", "localhost", 5432, None, None, false);
    assert_eq!(strs(&cmd.args), vec!["--dbname", "shop", "--file", "out", "--host", "localhost", "--port", "5432"]);
    assert!(cmd.env.is_empty());
}

#[test]
fn restore_command() {
    let (cmd, display) = restore_database("shop", "in.dump", "localhost", 5432, Some("bob"), Some("pw"), false);
    assert_eq!(cmd.program, "pg_restore");
    assert_eq!(
        strs(&cmd.args),
        vec!["--host", "localhost", "--port", "5432", "-C", "-c", "--if-exists", "--dbname", "shop", "in.dump", "--username", "bob"]
    );
    assert_eq!(
        cmd.env,
        vec![
            ("PGSSLMODE".to_string(), "disable".to_string()),
            ("PGPASSWORD".to_string(), "pw".to_string())
        ]
    );
    assert_eq!(display, "pg_restore --host localhost --port 5432 -C -c --if-exists --dbname shop  --username bob in.dump");
    assert_eq!(tool_failure_message("pg_restore", "bad"), "pg_restore failed: bad");
}

#[test]
fn snapshot_restore_plan_and_outcome() {
    let plan = plan_restore_snapshot("h", 7, &None, &Some("pw".to_string()), true, "/tmp/f", "apple-restored".to_string());
    assert_eq!(plan.new_dbname, "apple-restored");
    assert_eq!(plan.create_query, "CREATE DATABASE \"apple-restored\";");
    assert_eq!(strs(&plan.restore.args), vec!["--host", "h", "--port", "7", "-C", "-c", "--if-exists", "--dbname", "apple-restored", "/tmp/f"]);
    assert_eq!(plan.restore.env[0], ("PGSSLMODE".to_string(), "require".to_string()));
    assert_eq!(restore_snapshot_outcome("db".to_string(), Ok(Ok(()))), Ok("db".to_string()));
    assert_eq!(restore_snapshot_outcome("db".to_string(), Ok(Err("x".to_string()))), Err("pg_restore task failed: x".to_string()));
    assert_eq!(restore_snapshot_outcome("db".to_string(), Err("y".to_string())), Err("pg_restore task issues: y".to_string()));
    assert_eq!(create_restore_database_failed_message("db", "e"), "Failed to create new database db: e");
}

#[test]
fn connection_settings_defaults() {
    assert!(connection_settings(&None, None, &None, &None, true).is_none());
    let c = connection_settings(&None, Some(5432), &None, &None, false).unwrap();
    assert_eq!(c.host, "localhost");
    assert_eq!(c.port, 5432);
    assert!(c.user.is_none());
    let c = connection_settings(&Some("db".to_string()), None, &Some("bob".to_string()), &None, true).unwrap();
    assert_eq!(c.host, "db");
    assert_eq!(c.port, 5432);
    assert_eq!(c.user, Some("bob".to_string()));
    assert!(c.require_ssl);
}

#[test]
fn restore_targets_from_command_line() {
    assert!(matches!(restore_target_for("postgres", "n", None, None, None), Some(DatastoreRestoreTarget::Postgres)));
    match restore_target_for("elasticsearch", "n", None, None, None) {
        Some(DatastoreRestoreTarget::Elasticsearch { host, index }) => {
            assert_eq!(host, "http://localhost:9200");
            assert_eq!(index, "n");
        }
        _ => panic!(),
    }
    match restore_target_for("qdrant", "n", Some("http://q".to_string()), Some("c".to_string()), Some("k".to_string())) {
        Some(DatastoreRestoreTarget::Qdrant { host, collection, api_key }) => {
            assert_eq!(host, "http://q");
            assert_eq!(collection, "c");
            assert_eq!(api_key, Some("k".to_string()));
        }
        _ => panic!(),
    }
    assert!(restore_target_for("mysql", "n", None, None, None).is_none());
}

#[test]
fn datastore_restore_actions() {
    match DatastoreRestoreTarget::Postgres.restore_action("db", "f.dump") {
        DatastoreRestoreAction::RunPgRestore(cmd, display) => {
            assert_eq!(cmd.program, "pg_restore");
            assert_eq!(cmd.env, vec![("PGSSLMODE".to_string(), "disable".to_string())]);
            assert_eq!(display, "pg_restore --host localhost --port 5432 -C -c --if-exists --dbname db  f.dump");
        }
        _ => panic!(),
    }
    let es = DatastoreRestoreTarget::Elasticsearch { host: "http://e".to_string(), index: "i".to_string() };
    match es.restore_action("db", "f") {
        DatastoreRestoreAction::Announce(m) => assert_eq!(m, "[STUB] Would restore f to Elasticsearch at http://e, index i"),
        _ => panic!(),
    }
    let q = DatastoreRestoreTarget::Qdrant { host: "http://q".to_string(), collection: "c".to_string(), api_key: None };
    match q.restore_action("db", "f") {
        DatastoreRestoreAction::Announce(m) => assert_eq!(m, "[STUB] Would restore f to Qdrant at http://q, collection c"),
        _ => panic!(),
    }
}

#[test]
fn identifiers_with_quotes_are_doubled() {
    assert_eq!(quote_identifier("plain"), "\"plain\"");
    assert_eq!(quote_identifier("we\"ird"), "\"we\"\"ird\"");
    assert_eq!(create_database_query("a\"b"), "CREATE DATABASE \"a\"\"b\";");
    assert_eq!(rename_database_query("x\"", "y"), "ALTER DATABASE \"x\"\"\" RENAME TO \"y\";");
    assert_eq!(change_password_query("u\"", "p"), "ALTER USER \"u\"\"\" WITH PASSWORD 'p';");
}

#[test]
fn failed_create_stops_the_restore() {
    let plan = plan_restore_snapshot("h", 5432, &None, &None, false, "/f", "w-restored".to_string());
    match after_create_database(plan, Err("exists".to_string())) {
        RestoreSnapshotStep::Finish(r) => assert_eq!(r, Err("Failed to create new database w-restored: exists".to_string())),
        _ => panic!(),
    }
    let plan = plan_restore_snapshot("h", 5432, &None, &None, false, "/f", "w-restored".to_string());
    match after_create_database(plan, Ok(())) {
        RestoreSnapshotStep::RunRestore(cmd) => assert_eq!(cmd.program, "pg_restore"),
        _ => panic!(),
    }
}
