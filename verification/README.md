# Engineering documents manager

A web service that stores versioned engineering components (design decision
records, Mermaid diagrams, image links, API endpoint references) and documents
whose layouts list component versions in order, and that renders documents as
Markdown.

- `src/` is the verified library: the domain types, the Markdown rendering,
  the parsing of stored layouts, the decisions and statement arguments of the
  SQLite repositories, the answers of the HTTP handlers and the service
  settings. Each public function states its result in its contract.
- `app/` runs the service: it reads the environment, talks to SQLite through
  `sqlx`, serves HTTP with `axum`, converts to and from JSON with `serde`, and
  writes exported files.
- `tests/` exercises the library on concrete values.
