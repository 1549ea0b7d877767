# openleash

A privilege broker for AI agents: agents ask a daemon for packages and
secrets, policies and human approvers decide, and every decision lands in a
hash-chained audit log.

- `src/` is the verified library (Verus). Policy evaluation, the approval
  ledger and its grants, the audit chain, the daemon's work as state
  machines over what its store, keychain and commands answer (`requests.rs`,
  `tasks.rs`, `provision.rs`, `callbacks.rs`), sandbox profiles, task scopes,
  the Telegram approval messages and the command-line tool's decisions are
  all proved against their contracts.
- `tests/` runs the library on concrete cases.
- `app/` is the `leash` command-line tool: it reads and writes the YAML files
  and the service files that the library describes.
