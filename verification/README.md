# ott_demo_api

The decision-making core of a tabletop game catalogue HTTP API, verified with
Verus, and the server around it.

- `src/` — the library, verified: game-list and compound-search query
  planning (conditions, numbered bind values, ordering, counts), keyset
  cursors, three-tier effective-property resolution, `matched_via`
  metadata, vote review, hypermedia links and Problem Details errors.
- `app/` — the axum/sqlx server: routing, database queries, JSON forms of
  the library's types, and the parts that are decimal arithmetic (weights,
  the materialization pipeline run by PostgreSQL).
- `tests/` — tests of the library on concrete values.
