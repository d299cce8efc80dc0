# openusage_tray

The decision logic behind the OpenUsage menu-bar item on macOS, verified with
Verus: which mouse, trackpad, HID and event-tap input opens the context menu,
which toggles the panel, and the small state machines that debounce those
decisions.

- `src/` is the verified library. Every input path is a function from plain
  values (event kinds, button masks, touch counts, millisecond timestamps) to
  a decision or a next state, with its contract; the laws that relate them
  (a sequence opens the menu once, a menu opening claims the following mouse
  up, and so on) are public proof functions beside them. PNG encoding of the
  tray icon goes through the `png` crate behind one trusted wrapper.
- `tests/` runs the library on concrete values.
- `app/` wires the library to Tauri, AppKit, IOKit, MultitouchSupport and
  CoreGraphics: the native calls, timers, event monitors, logging and the
  floating-point frame geometry. It builds only for macOS.
