# task_api

A task management service: accounts with a two-step login (password, then a
one-time code sent by e-mail), HS256 access tokens, admin-only task creation and
assignment, and a per-user in-memory cache of the "my tasks" view.

## Layout

- `src/` — the library, verified with Verus.
  - `text.rs` — decimal numerals and lower-case hexadecimal.
  - `clock.rs` — instants and their RFC 3339 text (`chrono`).
  - `models.rs` — users, tasks, login challenges, e-mail records, request and
    response bodies.
  - `errors.rs` — the service's errors and their HTTP status, type and message.
  - `cache.rs` — the per-user task cache over a `DashMap`.
  - `services/` — one-time codes (`two_fa`), passwords (`password`, Argon2),
    tokens (`jwt`) and the verification e-mail (`email`).
  - `middleware/auth.rs` — Bearer tokens and the admin guard.
  - `handlers/` — the decisions behind each endpoint: login and code redemption
    (`auth`), task creation, assignment and the cached view (`tasks`), and the
    demonstration accounts (`seed`).
- `app/` — the HTTP server (actix-web), the SQLite store (sqlx), configuration
  from the environment, and the serde copies of the library's bodies.
- `tests/` — tests of the library.

## Endpoints

| Method | Path | |
|---|---|---|
| POST | `/seed/users` | creates `admin@example.com` (admin) and `jamesbond@example.com` (staff) |
| POST | `/auth/login` | checks the password, e-mails a code, answers with a challenge id |
| POST | `/auth/verify-2fa` | redeems the challenge once, answers with a Bearer token |
| POST | `/tasks` | admin only: creates a task |
| POST | `/tasks/assign` | admin only: assigns tasks to a user, drops that user's cache entry |
| GET | `/tasks/view-my-tasks` | the caller's tasks, with `cache.hit` |
| GET | `/dev/email-logs/latest` | development only: the last e-mail sent |
