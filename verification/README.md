# Androlon

Android apps as windows of the desktop: an engine over the Android emulator, a
daemon that keeps the runtime up while someone needs it, the stream of a device
with its input, bundles made of packages, and the programs around them.

`src/` is the library. It holds every rule, parser, format and state machine, and
Verus proves each function against its contract. What needs the outside world is
an operation: a function of the replies so far that says what to do next
(`step.rs`).

- `text`, `number`, `json`, `wire`, `fixed`: texts, numbers and formats.
- `host`, `model`, `config`, `error`, `subprocess`, `step`: the ground of the engine.
- `adb`, `emulator`, `waydroid`, `backend`: the engine.
- `ipc`, `runtimed`: the daemon and its clients.
- `media`, `nal`, `hardware`, `decode`, `encode`, `session`, `scrcpy`, `control`:
  the stream.
- `input`, `keymap`, `pane`, `surface`: windows that show a device.
- `badging`, `icons`, `appify`, `uninstall`, `wizard`: packages and bundles.
- `ui`, `library`, `shell`, `ctl`: the programs' own decisions.

`app/` is ordinary Rust around it: files, processes, sockets, threads, windows and
the system's frameworks. `tests/` runs the library.
