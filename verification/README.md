# missing_ctrl

A tray utility for Windows that turns a held Enter key into a Control
modifier. Pressing Enter alone still types Enter. Holding Enter and pressing
another key sends Control plus that key.

- `src/` is the verified library:
  - `keyboard`: the hook's state machine, with the laws about Control presses
    and releases.
  - `icon`: the tray icon bitmaps.
  - `tray`: the window-message, menu, message-loop and set-up rules.
  - `startup`: the value in the start-up registry key.
  - `wide`: UTF-16 strings.
- `app/` holds the Windows calls (the hook, registry, window, tray icon and
  menu). It hands their results to the library.
- `tests/` runs the library on concrete inputs.
