# reso

The verified core of the Reso DNS resolver's service: its data models, the
SQL filters it builds, metrics aggregation, session cookies and the decisions
of its HTTP API, written in Verus. Each function's contract is proved; where
a result comes from the clock or from random data, the contract states what
holds whatever was read.

- `src/` — the library. `api/` holds the HTTP API's types and decisions
  (pagination, errors, authentication, session cookies, statistics, the
  activity feed); `database/` the stored models and the `WHERE` builder;
  `metrics/` the live counters, batch aggregation and maintenance schedule;
  `config.rs`, `env_config.rs` and `local.rs` the settings, the session
  secret and per-request state.
- `tests/` — tests of the library on concrete values.
- `app/` — the program around it: environment, SQLite storage, the metrics
  task and the HTTP server.
