# split_server

A GraphQL service for splitting group expenses (users, groups, expenses,
payments, invites, balances), backed by SQLite.

- `src/` is the verified library (Verus): the entities, the decisions each
  query and mutation makes, the SQL statements each repository operation
  issues with their bound values, the conversion of stored rows, and the
  fields of the returned objects. Identifiers are UUIDs held as their 128-bit
  value; their text form and parsing go through the `uuid` crate.
- `app/` is the server around it: configuration, the connection pool, the
  asynchronous repository traits and their SQLite implementations, the
  `async-graphql` schema and the `axum` endpoint.
- `tests/` exercises the library on concrete values.
