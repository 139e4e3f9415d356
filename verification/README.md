# precios-carburantes

A web service for Spanish fuel prices (stations, price history, routes with
the stations along them, per-user settings), and a loader that fills its
SQLite database from the ministry's price feed.

- `src/` is the verified library (Verus): schema migrations and their
  hashes, hexadecimal rendering of digests, client authentication decisions
  and the user name read from a certificate's distinguished name, user
  settings, how handler errors are answered and logged, route cache keys and
  routing service status, static file decisions, certificate common names,
  station identifiers and decimal commas, and the region tables.
- `app/` is the program around it: the axum service, database and network
  access, floating-point geometry, and the loader (`app load`).
- `tests/` exercises the library.
