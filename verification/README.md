# niri-tag-sidebar

Gesture-driven slide-out panels for the niri Wayland compositor: layer-shell
drawers (and thin progress bars) bound to niri's gesture tags. A swipe in from
an edge drives the matching panel; released past its snap threshold it latches
open, below it slides back.

Layout:

- `src/` is the verified library (Verus): the configuration and its defaults
  (`config`), fixed-point fractions (`fraction`), window geometry and anchors
  (`geometry`), CSS classes, stylesheets and labels (`style`), the state of one
  panel and how gestures, drags and animation frames change it (`panel`), all
  panels keyed by tag (`sidebar`), routing of the compositor's event stream
  (`ipc`), command-line config selection (`cli`), and the properties that hold
  across operations (`laws`).
- `app/` is the program around it: reading the TOML file, the event-stream
  thread, and the GTK windows that mirror each panel's state.
- `tests/` runs the library on concrete values.

Fractions (reveal, progress, snap threshold) are parts per million; drag
offsets are millionths of a pixel.
