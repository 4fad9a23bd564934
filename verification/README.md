# git-same (verified core)

The logic of git-same's terminal UI, written in Verus and proved against its
contracts: provider and repository types, the Finder status schema, the setup
wizard's state machine, and the TUI's model with the transitions that keys,
timer ticks and background messages make.

Layout:

- `src/` is the verified library. Outside work (git, the GitHub CLI, the
  file system) is not done there: event handlers return
  `AppAction`s and `SetupEffect`s, and results come back as messages or
  through the `apply_*` functions. The system clock, chrono (timestamps) and
  shellexpand (`~` paths) are reached from `src/` through small trusted
  wrappers whose contracts are stated next to them.
- `app/` is the terminal front end: it reads keys, draws the screens with
  ratatui, stores configuration and history as JSON and performs the actions.
- `tests/` exercise the library on concrete values.
