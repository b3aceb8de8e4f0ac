# shelf

The core of Shelf, a desktop dashboard of tasks, events, projects, memos and
an encrypted vault, written in Verus.

- `src/` is the verified library: recurring schedules (`recurrence`,
  `datetime`, `tasks`), AES-256-GCM sealing and PBKDF2 key derivation
  (`crypto`), the vault and its unlock sequence (`vault`, `unlock`), the
  rules of the local store and its schema migrations (`store`, `schema`,
  `sql`), and the state of the helper windows (`windows`).
- `tests/` runs the library, partly against an in-memory SQLite database.
- `app/` is the Tauri shell: the commands, the SQLite connection, the macOS
  keychain and Touch ID, and window placement.
