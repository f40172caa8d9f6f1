# timeup

The rules of TimeUp, a small desktop task tool, as a verified library.

- `src/localdata.rs`: tasks, the window state, and the configuration file:
  the steps of loading it (TOML check, version comparison, decode or
  upgrade, save) and the text that saving writes.
- `src/prodata.rs`: the program's JSON data file.
- `src/window.rs`: the window commands: colour mode and background effect
  (Mica, Acrylic, none).
- `src/frontend.rs`, `src/components.rs`: the state machines of the user
  interface's views and the texts they show.
- `app/`: the desktop program and the yew views, which do the window calls,
  the file I/O and the drawing, and hand the library plain values.
