# s3em

A REST gateway for S3-compatible object storage: idempotent uploads keyed by
SHA-256 checksum, POSIX metadata kept in SQLite, soft deletes, an audit log
of file events with a live event stream, and JWT or master-key access.

- `src/` is the verified library: configuration, object keys, upload
  preparation and planning, the SQL statements and their parameters, event
  kinds and persistence, the access guard and login rules, object-listing
  pagination and the removal of orphan objects, each with its contract.
- `app/` is the server around it: HTTP routes (axum), SQLite (rusqlite via
  r2d2), the S3 client, the broadcast channel, and JSON (de)serialisation.
- `tests/` runs the library on concrete values.
