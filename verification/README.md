# iced_winit

The decision logic of a windowed application shell, verified with Verus.

- `src/clipboard.rs`: the clipboard of an application. A clipboard made for
  a window reports that window and gives back, for each kind, the text last
  written to it; an unconnected one never holds a value.
- `src/appearance.rs`: the default appearance of a program, taken from its
  theme's extended palette.
- `src/window_manager.rs`: the registry of open windows and of the platform
  identifiers that stand for them.
- `src/instance.rs`: the state machine of a running application instance:
  what each event does to its state, and which effect the event loop carries
  out for it.
- `src/runner.rs`: the state machine of the event-loop runner: booting the
  graphics once, passing events on until the loop exits, what follows a poll
  of the instance, and what the run returns.
- `src/interfaces.rs`: rebuilding the user interface of every open window
  from the caches kept in an `FxHashMap`.
- `src/backend.rs`: the steps of presenting a frame: which layers are
  drawn, with which pipelines in which order, the overlay on top, and the
  trim of the image cache.

`app/lib.rs` runs these state machines on a `winit` event loop: it owns the
platform windows, the channels and the instance future.
