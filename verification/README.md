# cloudhost

A file-hosting tool: named folders on disk are grouped into clouds, each
cloud is served over HTTP on its own port behind a password, and a terminal
front end manages folders, clouds, passwords and running servers.

- `src/` — the library, verified with Verus: configuration of folders and
  clouds, key bindings and their migration, the terminal front end as a
  state machine (keys in, state changes and effects out), the orchestrator
  that hands out ports, credentials, request paths, listings and upload
  names. Disk, clock and environment answers enter as arguments or through
  small trusted calls whose contracts say what they promise.
- `app/` — the program around it: reading and writing the TOML files,
  drawing with ratatui, serving with axum, signing tokens.
- `tests/` — tests of the library.
