# todo_server

The logic of a small to-do list web service (accounts, lists, items, sessions),
verified with Verus.

- `src/` is the verified library:
  - `auth.rs`: Argon2id password hashing under a server-wide pepper, and checking.
  - `object_id.rs`: twelve-byte document ids and their hexadecimal text.
  - `model.rs`: the stored and exchanged records, and HTTP statuses.
  - `store.rs`: the requests the service makes of its document store.
  - `handlers.rs`: per endpoint, the store request a call makes and the reply
    each outcome gives; bearer-token extraction; session claims.
- `app/` is the HTTP server around it (axum, MongoDB, JSON Web Tokens, the
  environment and the clock), which runs what the library decides.
- `tests/` exercises the library on concrete values.
