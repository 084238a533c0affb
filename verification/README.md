# explorer

The model layer of a personal knowledge workspace (tasks and projects, notes,
a knowledge graph, calendars, feed interests, user preferences), written in
Verus: every function in `src/` carries a contract that Verus proves.

## Layout

- `src/` — the verified library.
  - `timestamp.rs`, `ident.rs`: instants as seconds plus nanoseconds, and
    ULID ids. The clock (`chrono::Utc::now`) and the id generator
    (`ulid::Ulid::new`) are reached through two small trusted wrappers whose
    contracts claim only what holds of every reading.
  - `keyed.rs`: lookup, insertion and removal by text id, shared by every
    model that owns a list of entities, with the laws that removal keeps
    ids unique and drops exactly the removed id.
  - `order.rs`: a verified stable sort over integer keys, and the integer
    key that orders `f64` values given by their bits; a stable order is
    proved unique.
  - one module per model (`tag`, `task`, `project`, `recurrence`, `note`,
    `node`, `connection`, `graph`, `calendar_event`, `calendar`,
    `feed_source`, `feed_interest`, `features`, `preferences`, `user`).
  - `codes.rs`: the text codes the database stores for each enum, with
    round-trip laws; `db.rs`: the storage error, migration planning and
    decoding rules.
- `tests/` — tests on concrete values for every module.
- `app/` — the Tauri shell: commands, SQLite repositories, serializable
  copies of the models, and the few figures kept in floating point
  (project progress and feed-interest scores).

Floating-point values (block positions, interest weights) are held in the
library as their IEEE-754 bits, and ordered through `order::float_key`.
