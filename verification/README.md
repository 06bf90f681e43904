# queries_rusqlite

Shapes the rows of SQLite statements, run through rusqlite, into the result a
query method declares: exactly one row, at most one row, every row, a lazily
read prepared query, or no rows at all.

- `src/` is the verified library. `sqlite.rs` holds the rusqlite types and
  calls it relies on (trusted); `cursor.rs` steps a statement and records what
  each step saw; `read.rs` turns those steps into results and states each
  result as a function of the steps; `dispatch.rs` prepares the SQL, binds
  the parameters, ties the cursor's steps to that statement and picks the
  reader for a declared type; `laws.rs` proves what holds of every sequence
  of steps.
- `app/` holds the rusqlite-facing surface that cannot be verified: the
  `FromRow` trait with its tuple impls, rusqlite-typed entry points and an
  `Iterator` over a prepared query.
- `tests/` runs the library against in-memory SQLite databases.
