# paste_misterio_me

A paste service (web server and `pmis` command line client) whose rules are
written in Verus and proved against their contracts.

- `src/` is the verified library: pastes and who may see or delete them,
  users with Argon2-hashed passwords, login sessions and their cookie, API
  keys and the `Authorization` header, the server's error type and its
  renderings, the decisions of each page and JSON route, the template
  filters, syntax highlighting, and what each `pmis` command asks and
  prints. `src/laws.rs` holds the properties that span several functions.
- `app/` runs it: Rocket routes and request guards, the PostgreSQL
  statements, templates, and the `pmis` argument parsing and HTTP requests.
  The binary acts as `pmis` when invoked under that name, and as the server
  otherwise; the server reads its syntax dump and stylesheet from
  `SYNTAXES_PATH` and `STYLE_PATH` (default `assets/`).
- `tests/` exercises the library on concrete values.
