# kursor

Keyboard-driven mouse-cursor control: a three-layer grid (27×27 cells),
glide-num on the numeric keypad, glide-alpha on the main keyboard, and the
CLI commands `move`, `moveto`, `click` and `pos`. Linux (evdev + uinput,
X11 / wlroots / KDE) and Windows (low-level keyboard hook, `SendInput`).

## Layout

- `src/` — the library, verified with Verus. The program's key handling,
  parsing and integer layout decisions are here, with a contract (the
  floating-point grid geometry and drawing stay in `app/`):
  - `service` — the cross-mode state machine: `Service::dispatch` turns one
    input event into the steps the loop performs (keyboard writes, pointer
    operations, grid toggles and keys, pass-through), with the Meta/NumLock
    hold-back and the mode-toggle chords; `glide_num`, `glide_alpha` and
    `dir` are the glide modes; `grid` is the grid's key handling
    (`GridCtx::process_byte`, `nudge`, monitor selection); `windows` is the
    keyboard hook's repeat suppression and liveness probe.
  - `kpnav` — the keypad navigator and its single-loop service.
  - `config`, `keymap` — key layouts, labels, acceleration, key maps.
  - `device` — evdev capability checks, ioctl request numbers, uinput setup
    fields and event batches; the Windows virtual-key map.
  - `overlay` — monitor geometry, pixel formats, the shared-memory pool
    layout, UTF-16 text, and the parsers of the KDE cursor query.
  - `render` — integer glyph compositing and supersampling.
  - `cli` — subcommands, button names, the click command.
- `app/` — the program around it: argument parsing, the device and display
  I/O, drawing with `tiny-skia` and `fontdue`, and the service loops that
  feed events to the library and perform its steps.
- `tests/` — tests of the library's public functions.

The label font is read at run time from `KURSOR_FONT`, or from a common
system location.
