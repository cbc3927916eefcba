# adapters

The persistence and HTTP-facing layer of a university management service,
written in Verus.

- `src/` is the verified library: the database records and the entities they
  describe, the SQL statements of the repositories that build them with
  `sea-query` (behind trusted wrappers whose contracts spell out the quoted SQL text and its numbered placeholders),
  the grouping of join rows into entities, what becomes of
  the rows a query returns, the machine that drives saving an entity with
  child rows, the claims carried by access tokens, the decisions of reading a request's
  claims (bearer token, token-service refusal, role check), the configuration values and the answers of the handlers.
- `app/` is the unverified shell around it: the `sqlx` connection and
  transaction, the driver's row types, the repositories that run the
  library's statements, the hand-written SQL of the first-version
  repositories (compile-time checked `sqlx` queries), the environment loader, and the `axum` glue.
- `tests/` runs the library on concrete values.
