# yunara

A desktop music player's core, together with the background-worker toolkit it
runs on, written in Verus: the logic is executable Rust whose behaviour is
stated in `requires` / `ensures` contracts and proved.

Layout:

- `src/worker` — worker errors, triggers (once, notify, interval, cron and
  their combinations), typed builders, trigger drivers, the lifecycle state
  machine of a running worker and shutdown accounting.
- `src/store` — identifier-key requests and their resolution against stored
  rows, ordered batch reads, SQL statement text and the database settings.
- `src/player` — playback queue state, clock text, docks and panes,
  navigation, playlist paging and display, authentication plans, the token
  refresh state machine and the retry rule for API queries.
- `src/paths` — the application's directories, computed from the platform's
  base directories.
- `app/` — the unverified runtime around the library: tokio tasks and
  channels, the SQLite store, file I/O and the music-service client.
- `tests/` — tests of the library on concrete values.

The desktop views (sidebar, player bar, playlist and library views, docks'
panels) and the embedded assets are not part of this crate: they are drawn
with a GUI toolkit and floating-point layout. What they decide (track and
time text, cover choice, navigation, paging) is in `src/player`.

Calls into `croner` (cron parsing and the next occurrence) and `uuid`
(identifier generation) stand behind trusted wrappers whose contracts are
documented where they are declared.
