# sistema_bancario_hnl

A small banking service: users register and log in with JWT bearer tokens,
and move money between accounts kept in a TigerBeetle ledger; PostgreSQL
holds the users and the history of movements.

- `src/` is the library, verified with Verus. It holds the service's
  decisions: settings, request rules, the middleware's reading of the
  `Authorization` header, the answers of the handlers, and each multi-step
  operation (registration, login, deposits, withdrawals, transfers, profile
  changes, the preparation of the bank's account) as a step function from a
  stage and what the database or the ledger answered to the next stage and
  what to do. Contracts state these over spec functions; the laws that span
  steps are public proof functions.
- `tests/` runs the library on concrete values.
- `app/` is the server around it: reading the environment, the database and
  ledger calls, JWT signing and decoding, JSON, routing, and the loops that
  perform each step's action and hand its answer back.
