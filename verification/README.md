# lava_timer

The native side of LavaTimer, a menu-bar focus timer, as a verified library.

- `src/tray_timer.rs` — the menu-bar timer: elapsed seconds, pausing, taking
  over the state the front end reports, and the last screen-off time.
- `src/title.rs` — the menu-bar title (`Lava` while paused, `h:mm` while
  running) and the decimal formatting behind it.
- `src/clock.rs` — reading the system clock in milliseconds since the epoch.
- `src/expansion.rs` — whether the window grows upward or downward.
- `src/placement.rs` — where the window goes after a resize.
- `src/snap.rs` — snapping the window to the nearest edge after a drag.
- `src/layout.rs` — the view and expansion direction the shell remembers.
- `app/lib.rs` — the Tauri shell: windows, tray, commands, macOS
  notifications, and the float arithmetic of display scaling.
- `tests/` — scenarios for each module.
