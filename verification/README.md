# slumber_tui

The decision core of a terminal user interface for an HTTP client, with its behaviour stated and
proved in Verus.

- `src/` is the library. It holds the controller, the main loop, the start of the program and the
  background tasks, each as a function from what happened to what is due next. `src/laws/` states
  what holds of them together.
- `app/` runs the library: it performs the effects, with tokio, ratatui, crossterm, notify and
  open, and reports what came of them. The view, the HTTP engine and the storage plug in through
  the two traits in `app/services.rs`.
- `tests/` runs the library on concrete values.
