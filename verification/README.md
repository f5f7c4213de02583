# greend

The daemon of greenB: it runs macOS's `powermetrics`, turns each sample into
per-process energy records, and writes them to an SQLite database, sampling
less often while the user is idle.

Layout:

- `src/` — the verified library (Verus): process naming and classification
  (`subprocess/macos.rs`, with the process table and its laws in
  `subprocess/app_table.rs`), the sampler's command line and the decisions of its
  loop, reading the idle time from `ioreg` and choosing the sampling interval
  (`idle/`), batching samples for the database and building session rows
  (`db.rs`), timestamps and sessions (`schema.rs`), the database location and
  the log timer (`lib.rs`), and the character-level text handling they share
  (`text.rs`).
- `app/` — the daemon itself: tasks, channels, the child process, SQLite,
  reading the local clock for log lines,
  plist parsing and the floating-point energy figures.
- `tests/` — tests of the library.
