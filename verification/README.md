# halo_server

The core of the Halo chat server, written in Verus: the domain model (users,
sessions, conversations, messages, groups, pre-keys), the end-to-end encryption
primitives (X3DH key agreement and the double ratchet), and the request-level
rules of the HTTP API (validation, authorization, error answers, paging,
encodings), each with a contract proved by Verus.

Layout:

- `src/domain` — entities and their rules; `src/domain/crypto` holds X3DH and the
  double ratchet, with the agreement and delivery properties stated in the
  contracts of `x3dh_initiate` and `RatchetState::encrypt`.
- `src/application` — the decisions of the authentication use cases.
- `src/adapters` — what the HTTP, JWT and storage adapters decide: error mapping,
  request checks, response bodies, stored encodings.
- `src/ports` — the values exchanged with the server's services.
- `tests/` — executable tests of the library.
- `app/` — the server around the library: configuration, PostgreSQL storage,
  JWT signing with `jsonwebtoken`, the Axum router and its middleware.

Calls into `uuid`, `chrono`, `sha2`, `hkdf`, `x25519-dalek`, `chacha20poly1305`,
`rand` and `argon2` go through small wrappers whose contracts state what those
crates document.
