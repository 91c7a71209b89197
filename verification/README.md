# axum_services

Four small web services and the verified logic behind them.

- `src/` is a Verus library: the decisions of each service, with contracts.
  - `authentication`: argon2 password and refresh-token hashing, HS256 access
    tokens, and what the register, login, refresh, `me` and admin handlers
    decide between their database calls.
  - `hello_axum`: a greeting and an in-memory item list.
  - `user_registration`: sign-up validation and an in-memory user registry,
    with a strict sign-up that refuses an email address already taken.
  - `state_management`: the outcomes of the user CRUD handlers.
- `app/` is the binary: HTTP routes (axum), PostgreSQL (sqlx), settings from
  the environment. Run it with one of `authentication`, `items`, `users` or
  `registration`.
- `tests/` exercises the library.
