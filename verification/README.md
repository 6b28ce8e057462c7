# pos_global

The core of an offline-first point-of-sale and store-management system, written in Verus:
every function of the library states its behaviour in `requires`/`ensures` and is proved
against it.

## Layout

- `src/` — the verified library.
  - `auth/` — sign-in configuration and credential rules, token replies, error replies,
    JWT role claims; `auth/middleware.rs` decides authorization from a validated session.
  - `permission/` — permissions, roles, default grants, user overrides and scope checks.
  - `organization/`, `branch/`, `register/` — tenant records and their field rules.
  - `category/`, `brand/`, `manufacturer/`, `product/` — the catalogue; `category/tree.rs`
    builds the category forest and `category/complete.rs` proves that it shows every
    category.
  - `barcode/` — GS1 check digits, symbologies and their validators, SKU and internal
    EAN-13 generation, and the decisions of the barcode registry.
  - `location/` — storage locations and bins, partial updates, hierarchy checks and the
    location tree (`location/complete.rs` proves it complete under distinct IDs).
  - `batch/`, `serial/` — lot and serialized-unit lifecycles, FEFO allocation.
  - `stock/`, `stock_ledger/` — the stock movement services: request checks, idempotency
    hashing, movement plans over aggregate, spatial, batch and serial balances.
  - `commands/` — records and decisions of the user-interface boundary.
  - `text.rs`, `rules.rs` — string and field-rule helpers shared by the modules.
- `tests/` — tests on concrete values, run against the compiled library.
- `app/` — the SQLite repositories, HTTP sign-in and the program entry point. They run
  the SQL, the transactions and the read loops, hand what they read to the library's checks
  and plans, and write what those return. What stays there unproved is I/O: which rows a
  query selects, that a transaction commits all of its writes or none, and the
  floating-point columns kept for older readers.

## Trusted code

Six functions are trusted rather than proved (`#[verifier::external_body]`): appending a
character to a `String`, Unicode upper- and lower-casing, `{:?}` of an optional string,
reading the `role` claim from a JWT payload with `serde_json`, and SHA-256 from `sha2`.
Each states what it claims in its doc comment.
