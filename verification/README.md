# gestor_comercial

The rules behind a small point-of-sale and back-office desktop application
(products, customers, suppliers, stock, sales, cash drawer, accounts payable and
receivable, preferences, backups), written in Verus and proved against their
contracts.

- `src/` — the verified library. Each command of the application is decided
  here from its input and from what the database answered: `records`, `stock`,
  `sales`, `cash`, `accounts`, `settings`, `backup`, `reports`, `auth`
  (password digests and login), `clock` (timestamps and the order of their
  texts), `text` (trimming, search, numerals) and `error` (every refusal and
  its message).
- `app/` — the Tauri application: it locks the SQLite database, runs the
  queries, asks the library what to do and writes the result.
- `tests/` — tests of the library on concrete values.
