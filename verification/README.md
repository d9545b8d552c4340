# mamcli

Conversation sessions kept in SQLite, as a library that is verified with Verus.

A session belongs to an agent and holds numbered events. Writers append batches of events against
the version they expect a session to be at; a batch is appended whole or not at all.

- `src/` is the library. It checks input, builds the SQL statements, interprets rows and decides
  what each operation does next and returns. `src/database.rs` models the tables, and `src/laws/`
  states and proves what the operations do together: that an append is atomic, that what was
  appended is read back, that a stale writer is refused, that deleting a session deletes its events,
  and so on.
- `tests/` runs the library, also against SQLite itself.
- `app/` is the program: the connection pool, the asynchronous store interface and the command line.

What is taken on trust is marked `external_body` or `assume_specification`: single calls into
`chrono`, `serde_json`, `ulid` and the standard library, each with a comment that says what is
believed of it. How SQLite executes the statements is taken to be as `src/database.rs` says.
