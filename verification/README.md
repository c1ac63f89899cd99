# duroxide_turso

A verified core for the Turso- and SQLite-backed stores of a durable-execution
runtime. `src/` is checked by Verus; `app/` performs the I/O around it.

- `src/text.rs` — decimal rendering, ASCII case folding, substring search,
  prefix stripping and `i64` parsing, each against a specification.
- `src/errors.rs` — Turso SDK errors as plain values, the query layer's error,
  which failures replay a concurrent transaction.
- `src/values.rs` — database values, binding parameters, decoding columns,
  column lookup in rows; laws on binding and reading back.
- `src/query.rs` — query builders and what each fetch makes of fetched rows.
- `src/timespan.rs` — spans of time with `Duration`'s range and arithmetic.
- `src/options.rs` — journal/synchronous/transaction modes, options, builder.
- `src/pool.rs` — pool size, idle connections, rollback debt of abandoned
  transactions.
- `src/provider.rs` — URL normalisation, the plan for opening a store, the
  retry and backoff policy with its laws.
- `src/sqlite.rs` — connection PRAGMAs and schema strategy of the SQLite store.
- `src/stress.rs` — stress-test configurations, scratch files, suite plans.
- `app/` — the Turso connection pool, query execution, opening stores, and
  the file-system side of the stress factories.
