# ghostbloods

The decision logic of the GhostBloods menu-bar monitor, verified with Verus.

- `src/` is the library. `alerts` plans desktop notifications (hourly limit,
  quiet hours with FLASH override, digests); `runtime` holds the mute window
  and the timestamps of sent notifications; `sweep` records sweep results and
  reports their outcome; `engine` decides the steps that start and stop the
  local dashboard engine; `tray` describes the tray menu and what its items do;
  `settings` holds the persisted configuration; `clock` reads the system
  clock; `text` renders numbers and joins text; `laws` states and proves the
  properties that span these functions.
- `app/` is the Tauri shell around it: windows, the tray icon, the Node.js
  processes, notifications, and the JSON state file.
- `tests/` runs the library on concrete values.
