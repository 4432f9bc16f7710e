# rustbackendstarter

A JWT-authenticated user backend (Axum, PostgreSQL, Argon2id passwords) whose
decision logic is a Verus-verified library.

- `src/` — the verified library:
  - `config` — settings from raw environment values (defaults, the 32-byte
    secret rule, comma-separated CORS origins, port parsing);
  - `pagination`, `users` — page windows and the administrator's user list;
  - `tokens` — access tokens (HS256 via `jsonwebtoken`), refresh tokens,
    `Authorization: Bearer` parsing, request authentication, the admin guard;
  - `password` — Argon2 hashing and checking;
  - `requests` — request bodies and their validation rules;
  - `flows` — the register, login, refresh and admin-seeding flows as steps
    from the last outcome to the next database action or answer;
  - `responses` — dashboard and health answers, usable CORS origins;
  - `clock`, `ids`, `text`, `error` — time, user ids, text helpers, errors;
  - `laws` — properties that span several functions.
- `app/` — the HTTP service: routes, extractors, database queries, OpenAPI
  document. It runs the flows: each step names the query to perform, and the
  query's outcome is handed to the next step.
- `tests/` — tests of the library.
