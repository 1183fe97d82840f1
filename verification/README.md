# vertica

The verified core of Vertica, a local-first desktop application for managing
structured personal projects.

- `src/` is the library, written in Verus and verified:
  - `domain/` – the `Project` aggregate (validation, normalisation, lifecycle
    transitions, soft deletion), its mathematical model and the laws that
    relate its operations; application settings; repository contracts.
  - `application/` – the use cases that coordinate the domain with its
    repositories (project service, settings service, application information,
    database diagnostics).
  - `persistence/` – the decisions of the SQLite layer: decoding stored rows,
    building rows to store, classifying and reporting storage failures, the
    schema migrations with their checksums and the plan of which are due.
  - `text.rs` – text helpers (trimming, comparison, decimal and hexadecimal
    notation).
- `app/` is plain Rust around the library: SQLite access with `rusqlite`,
  identifier and clock sources, the serde-enabled IPC types and the command
  functions.
- `tests/` exercises the library with concrete values.
