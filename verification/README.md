# openclaw_state_engine

Persistent state and session management for AI agents: users, sessions,
goals, idempotent tool executions, memories and channels, served over
JSON-RPC from a SQLite database.

## Layout

- `src/` is the verified library (Verus).
  - `json.rs`: JSON documents as plain values, and their equality.
  - `time.rs`, `ids.rs`: instants and UUID identifiers, with the chrono and
    uuid calls behind small trusted wrappers.
  - `digest.rs`: the writes that identifiers, texts and JSON documents make
    to std's `DefaultHasher`, as their `Hash` impls make them; the
    automatic idempotency keys hash an execution's identity with them.
  - `models/`: the entities, their constructors, builders and state
    transitions, the status codes stored for their enumerations, tool
    schemas with input validation, and retry policies.
  - `persistence/`: the row codecs of every entity (tool schemas included) (with their round-trip
    laws), the database errors, and the decisions the repositories take on
    what the database answers, idempotent creation among them.
  - `api.rs`: what the JSON-RPC methods compute before and after the
    database does its part.
  - `replay.rs`: the report of a session replay, line by line.
  - `concurrency.rs`: compare-and-swap.
- `app/` is the server binary: SQLite access (rusqlite), migrations, the
  repositories' SQL, the JSON-RPC module (jsonrpsee), the command line
  (clap) with the replay command's reads and printing, entity-level locks (dashmap, parking_lot), and the retry delay,
  which is floating-point arithmetic.
- `tests/` runs the library on concrete values.
