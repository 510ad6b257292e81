# maintenance_engine

The foundation layer of the Maintenance Engine as a Verus-verified library,
with a thin Rust crate around it.

- `src/` — the verified library. Its functions carry `requires` /
  `ensures` contracts proved by Verus over spec functions and views (the
  few trusted items that call outside code are marked `external_body` and
  say in their doc comments what is believed of them):
  shared vocabulary types (module and agent identities, ticks, tensor
  dimensions, coverage bitmaps), the error taxonomy and its
  classification, configuration (defaults, validation, TOML layering,
  environment overrides, change and validation reports), logging contexts,
  formats and levels, metric label sets and naming rules, the parsing of
  the kernel's `/proc` and `/sys` texts, self-model vocabulary, and
  database health summaries. Public `lemma_*` proof functions state the
  laws that relate several operations.
- `app/` — what Verus cannot hold: reading files and the environment,
  the log subscriber, locks and atomics (metrics registry, configuration
  manager, self-model), the global tick counter, and the floating-point
  tensor encodings and scores.
- `tests/` — the library's tests.

Calls into outside crates from `src/` go through a few trusted wrappers,
each documented where it is declared: `uuid` for correlation
identifiers, `toml` for reading configuration files, `tracing` for the
level type, and `std` for string pushes.

The database manager, which stores the engine's records in SQLite through
`sqlx`, is not part of this crate: it rests on a state-persistence module
that is not in this source tree. Only the health summary of its checks
(`database::DatabaseHealthReport`) is here.
