# innu

A small Wi-Fi manager for NetworkManager: a window, a tray icon and a
command line, written in Rust with its logic verified by Verus.

## Layout

- `src/` is the verified library. It holds every decision the program makes:
  how scan results become the network list and in what order it is shown,
  how a snapshot of NetworkManager's state is assembled, the worker's control
  loop as a state machine (`worker.rs`), what the window shows and what each
  click does (`app_state.rs`), the tray menu (`tray.rs`), the colour palettes
  and the parsing of colour overrides (`theme.rs`), and the command line
  (`cli.rs`). Each public function states its result in `ensures`, over
  spec functions that say what the result is; the laws that tie functions
  together are public proof functions beside them.
- `app/` is the program around it: the D-Bus calls through `nmrs` and `zbus`,
  threads, the egui window, the `ksni` tray, notifications, and the files
  under the user's configuration directories. It asks the library what to do
  and does it.
- `tests/` runs the library on concrete values.
