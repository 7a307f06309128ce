# mongo_migrate

Copies a MongoDB database into another one: the collections that the
destination lacks are created, then every collection's indexes (optionally)
and documents are copied, each collection in a task of its own.

- `src/` is the verified library (Verus). Settings reading
  (`components::env_reader`) and the migrations of collections, indexes and
  documents (`services::*`) are state machines: each says which database or
  terminal action comes next and takes back its outcome. Their contracts and
  the proof functions beside them state what a migration does.
- `app/` is the program: it reads the environment and the terminal, talks to
  MongoDB, spawns the per-collection tasks, and drives the state machines.
- `tests/` runs the library on concrete values.

Settings come from the environment variables `DISPLAY_HEADER`,
`COPY_INDICES`, `READ_TO_MEMORY`, `MONGODB_ORIGIN_CONNECTION_STRING`,
`MONGODB_ORIGIN_DB`, `MONGODB_ORIGIN_COLLECTIONS`,
`MONGODB_DESTINATION_CONNECTION_STRING` and `MONGODB_DESTINATION_DB` (a `.env`
file is read too). An unset `DISPLAY_HEADER` shows the header; an unset
`COPY_INDICES` or `READ_TO_MEMORY` is `false`; any other unset setting is
asked for on the terminal. Where no collection is named, every collection of
the origin database is migrated.
