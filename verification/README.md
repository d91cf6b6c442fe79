# winit-toyos

The ToyOS platform backend for winit, with its decisions verified in Verus.

- `src/` is the verified library:
  - `keyboard`: USB HID usages to key positions and named keys.
  - `modifiers`: the held modifier keys and mouse buttons, and the modifiers report.
  - `text`: key text (smol_str) and character-wise lowercasing.
  - `event`: the events the backend reports and the window's reports.
  - `event_loop`: key and mouse translation, the wake-up proxy, event loop attributes.
  - `redraw`: the queue of windows waiting to redraw, each at most once.
  - `run_loop`: the event loop as a state machine: effects to perform, and a request whose
    answer drives the next step.
  - `window`: window attributes and the initial surface size.
- `app/` holds the parts that talk to the ToyOS window, to winit-core's traits and to the
  clock: `EventLoop`, `ActiveEventLoop`, `Window`, and the conversions to winit-core types.
- `tests/` exercises the library.
