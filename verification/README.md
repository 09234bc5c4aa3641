# bw_tui

The state machine, search, item form, session cache and command lines of a
terminal front end to the Bitwarden `bw` client, verified with Verus.

- `src/` is the verified library. `App` holds the whole state; key presses
  (`App::handle_key`), finished background jobs (`App::apply_bw_event`) and
  clock ticks (`App::on_tick`) change it and answer with an `Effect` for the
  driver: run a `bw` job, copy to the clipboard, or clear the session.
  The chained client operations are state machines in `flows`, the command
  lines and the reading of their output in `commands`, the session cache in
  `session`, and the texts the screens show in `display` and `screens`.
  `laws` holds the properties that relate several operations.
- `app/` is the terminal program around it: the event loop, the `bw`
  processes, the cache and config files, the clipboard, and drawing with
  ratatui.
- `tests/` runs the library on concrete values.
