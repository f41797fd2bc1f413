# rshell (verified core)

The decision logic of the rshell terminal client, written in Verus and proved against
its contracts:

- `window_size` — the first window size for a monitor, with bounds proved for every size.
- `terminal_font` — which font family draws a run of terminal text.
- `clipboard` — the outcome of a clipboard read.
- `pane_tree` — the pane layout of a tab, its split and close operations, and the plan that
  grows any layout into a 2x2 grid (proved to reach it).
- `smoke_visual`, `smoke_driver`, `smoke_fixtures`, `smoke_matrix` — the visual smoke
  checkpoints: the evidence contract, the scenario driver, and the checkpoint decisions.
- `auth` — authentication plans built from a connection profile.

`app/` holds the GTK glue: it reads widgets and monitors, calls the library and carries
out what it decides. `tests/` exercises the library on concrete values.
