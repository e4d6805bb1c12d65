# ntfy-rs

A lightweight publish/subscribe notification server, compatible with ntfy
clients. The rules of the server are a verified library; the server binary
around it handles HTTP, storage and the clock.

- `src/` — the library, verified with Verus:
  - `message` — messages, topic names, message ids, topic lists;
  - `auth` — roles, identities, credential parsing, access control;
  - `config` — command line, configuration file, resolved settings;
  - `publish` — publish checks and the message a publish request makes;
  - `subscribe` — subscription parameters and what they ask for;
  - `webpush` — which push endpoints may be registered;
  - `schema` — the database schema version and pending migrations;
  - `state` — the state shared by request handlers;
  - `text` — string operations with their meaning stated over characters.
- `app/` — the server: axum routes and middleware, SQLite storage, topic
  fan-out, rate limiting, the background manager, and the JSON wire format.
- `tests/` — tests of the library.
