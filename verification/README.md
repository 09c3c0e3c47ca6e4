# altoggle

Switch the Windows IME with a solo press of a modifier key: press and release
right Alt on its own and the IME turns on, left Alt and it turns off; Alt with
anything else stays ordinary Alt, and a press held past the threshold falls
through to Windows untouched.

## Layout

- `src/` is the library, written in Verus and verified: the solo-press state
  machine and what every operation on it keeps, what a fired press injects,
  the settings, their validation and their config file, the probes' command
  line, and the decisions behind the tray, the session watcher and the
  settings window, and the tray icon's PNG decoding. Every public function states its result in its contract;
  the `law_*` proof functions state what holds across calls.
- `tests/` runs the library on concrete values.
- `app/` is the Windows program around the library: the low-level hooks,
  `SendInput`, IMM32, the registry, the tray icon, the settings window, the
  config file on disk, and the developer tools (`altprobe`, `imeprobe`,
  `keylog`, `icongen`), chosen by the executable's file name.

The few calls the library makes into std, the `toml` crate and the `png`
crate sit behind small trusted wrappers whose doc comments say what is
assumed of them.
