# notiser

A Wayland notification daemon (`org.freedesktop.Notifications`) with Lua
configuration, whose decision logic is a library verified with Verus.

## Layout

- `src/` — the verified library:
  - `notification`, `strmap`, `text`: notifications, their hints and the
    string helpers they need;
  - `hints`: decoding the D-Bus hints and action list of a `Notify` call;
  - `manager`, `history`, `daemon`: the active notifications, the history and
    what the daemon does for each D-Bus command and timer tick (ids, replies,
    expiry, `NotificationClosed` signals);
  - `animation`: enter/exit animation state per notification;
  - `layout`: the layout tree's enums and the predicates of conditional
    elements;
  - `config`, `settings`: configuration defaults, colour parsing and the
    mapping of configuration strings to settings;
  - `input`: what a click does;
  - `paths`: the configuration path and the sound-file search order;
  - `action`, `imaging`, `strategy`, `watcher`: shared message types.
- `tests/` — tests of the library.
- `app/` — the program around it: Wayland and wgpu rendering, the float
  layout engine and easing curves, the D-Bus services, Lua loading, the file
  watcher, sound playback and the `notiser-ctl` client.
