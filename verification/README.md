# kiwi

The verified core of the Kiwi keystroke visualizer: it turns raw keyboard,
pointer, touchpad and touchscreen events into the row of keystrokes an
on-screen overlay shows, and holds the decisions of the settings
application, the tray icon and the panel applet.

- `src/` is the library, verified with Verus. Its main piece is the input
  state machine in `src/input.rs` (`process_input_event`), whose effect on
  the overlay state is stated by `next_state`, together with laws about it
  (the history stays bounded, shortcuts are recorded once, modifier taps are
  recorded on their own, drags are recognised, a disabled overlay ignores
  input). Every event carries a millisecond clock reading: repeats merge only
  within a short window, and the periodic cleanup drops keystrokes once the
  fade duration has passed. `src/overlay.rs` states what the overlay draws:
  the row of keystrokes (bounded by the width and the widget limit) and the
  touch markers.
- `tests/` exercises the library on concrete inputs.
- `app/` is the runtime around it: libinput capture, the tray icon, the
  D-Bus control service and the main loop.
