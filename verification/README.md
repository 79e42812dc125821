# taskhub

The verified core of a small task-tracking web service: password login with
an e-mailed second-factor code, HS256 access tokens, role checks, task
creation and assignment, and a per-user cache of task listings.

- `src/` is the library, checked by Verus. Each request handler of the
  service is a function from the state of the request and what the storage
  reported to the next state and the next thing to do (look a row up, write
  a row, answer); token signing, password hashing, identifiers, randomness,
  the clock and the concurrent cache are reached through small trusted
  wrappers around `jsonwebtoken`, `argon2`, `uuid`, `rand`, `chrono` and
  `dashmap`.
- `app/` is the server: routing with `axum`, storage with `sqlx` on
  PostgreSQL, and the loop that carries out what the library decides.
- `tests/` runs the library against concrete values.
