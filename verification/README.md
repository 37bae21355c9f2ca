# magnesium

The verified core of an image hosting service with buckets, optional WebP
delivery, resizing on upload, and API keys kept in a database.

- `src/` is the library, checked by Verus: the decisions of every endpoint
  (`admin`, `serve`, `upload`), key generation (`keys`), header parsing
  (`header`), text and path helpers (`text`), the start-up directory layout
  (`setup`), the configuration (`config`), replies (`reply`) and the
  properties that span them (`laws`).
- `app/` is the web server around it: actix-web routes, the MongoDB key
  store, file system work and reading `config.toml`.
- `tests/` exercises the library on concrete values.
