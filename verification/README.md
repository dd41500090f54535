# rscat

The logic of a tray app whose icon is a little runner that speeds up with the
machine's load, written in Verus and verified.

- `src/` — the verified library: settings and their parsing (`settings`),
  the frame clock (`animation`), decoded runner frames (`assets`, decoding
  through the `image` crate), memory figures, the sample window and byte
  formatting (`metrics`), the tray menu's items, the actions they ask for and
  the icon's pixels (`tray`), where settings are stored (`platform`) and the
  launch-at-login stub (`startup`).
- `app/` — the program around it: the event loop and timers, the tray icon
  (`tray-icon`), the settings window (Slint), load sampling (`sysinfo`), the
  settings file (`serde` + `toml`), and the floating-point pace and tooltip
  computations.
- `tests/` — tests of the library.
