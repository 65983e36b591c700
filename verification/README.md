# storeman-core

The inventory engine of StoremanPro, a stand-alone stores application for the
Canadian Army storeman: items, locations, stock balances by condition code, lots and
serials, custody, the receive / issue / return / transfer / adjust / stocktake
transactions, a SHA-256 hash-chained audit log, Argon2 sign-in and role-based
access control, reports and CSV exports.

The library is written in Verus. Every function carries a `requires` / `ensures`
contract over a mathematical model of the store (`DatabaseView`), and Verus proves
the code against it.

## Layout

- `src/models/` — the records of the store and the texts their codes are stored as.
- `src/db/` — the store itself (`Database`, its view and well-formedness), the
  writes and look-ups, the listings in their documented order, the reports and CSV
  exports, the default data and equipment catalogue it is seeded with.
- `src/transactions/` — the transaction engines, each with an outcome predicate
  that says, for every input, what is written or why the request is refused;
  `laws.rs` holds the laws that relate them (what a transaction does to the
  balances, what undoes what, what a refused role is answered).
- `src/audit.rs` — the hash chain, and the laws that make it tamper-evident.
- `src/auth/` — password hashing and checking, sign-in, role checks.
- `src/forms/` — the logic behind each screen: reading the typed fields, submitting,
  and the status line shown.
- `src/order.rs`, `src/text.rs` — orders on texts, a verified sort, number and
  identifier texts.
- `tests/` — tests on concrete values.
- `app/` — the desktop application: the egui screens and the SQLite file the store
  is kept in.

Outside crates are called only through small trusted wrappers, each documented with
what its contract claims of the crate: `sha2` and `hex` for the audit chain,
`argon2` and `rand` for passwords, `uuid` for identifiers, `chrono` for the clock,
`csv` for export records.
