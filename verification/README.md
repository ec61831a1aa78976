# rustored

A tool to browse database snapshots kept in S3 and restore them into
PostgreSQL, Elasticsearch or Qdrant, with PostgreSQL management commands
(list, create, clone, drop, rename, change owner or password, dump, restore).

## Layout

- `src/` is the library, verified with Verus. It holds the interactive
  browser's state machine (keys, focus, editing, popups), the settings
  panels with their masking of secrets, highlighting and help lines, the
  main screen's layout and status line, the snapshot list (filtering a bucket
  listing, a stable newest-first sort, the table's texts), download
  progress, the SQL statements (with quoted identifiers) and `pg_dump` /
  `pg_restore` invocations, the steps of a snapshot restore, configuration
  from the environment and the command line, and the checks of each restore
  target. Of the screen's areas it states that each lies within its parent,
  in order, spanning the parent across the split; the exact sizes are
  ratatui's layout solver's choice.
- `app/` is the program around it: argument parsing, logging, the terminal,
  and the network, database and file work. It hands the library plain
  values and carries out the actions the library returns.
- `tests/` exercises the library on concrete values.

Calls into other crates that the library makes (ratatui's layout solver,
chrono's date formatting, random words for new database names, and two
`String` methods) go through small trusted wrappers whose contracts are
stated next to them.
