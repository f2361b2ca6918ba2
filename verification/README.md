# nightingale

Nightingale is a local, defensive security monitor for macOS and Windows: it watches
folders the user picks, keeps SHA-256 integrity baselines, grades file activity with an
explainable threat policy, folds signals into incidents and derives a security score.

- `src/` is the verified core: the threat policy and its laws, event
  deduplication, baseline comparison, incident correlation decisions, the security score,
  the report, policy and settings validation and which stored policy is in force,
  allowlist normalization, migration planning, the process search and listing order, and
  the platform capability table.
- `app/` is the desktop shell around it: Tauri commands, SQLite storage (`rusqlite`), the
  `notify` file watcher, `sysinfo` telemetry and the serialized forms of the records.
- `tests/` exercises the library on concrete inputs.
