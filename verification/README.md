# ymap

The build, deploy and data-model logic of the YMap project, written in Verus
and verified.

- `src/` is the library. Each module states its behaviour in `requires` /
  `ensures` contracts over spec models, and Verus proves them:
  release levels and the `cargo-leptos` command line (`release`,
  `cargo_leptos`), paths and runners on the deployment server (`paths`,
  `runner`, `server_commands`, `deploy`), the production database's
  maintenance plans (`production`), the website server's start-up checks and
  content security policy (`server`, `csp`), payload records and the payload
  derives' field reading (`payload`, `thing`, `macro_fields`), storage,
  hashing and directory snapshots (`storage`, `hash`, `vfs`, `root`,
  `path_matching`, `logs`), the editor window's life cycle (`app_state`), and
  how a plan of steps runs: in order, stopping at the first failure (`steps`).
- `tests/` runs the library on concrete values.
- `app/` is the command line around the library: it reads the environment and
  the disk, runs the programs the library's plans name, and holds the `syn` /
  `quote` glue of the payload derives.
