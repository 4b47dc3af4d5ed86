# aim_trainer

An aim-training game for Windows (click and tracking scenarios, raw mouse
input, heat map, progress history). The rules of the game are a library
verified with Verus; the window, drawing, input plumbing, files and all
floating-point motion and scoring are an ordinary Rust program around it.

- `src/` — the verified library:
  - `rng` — xorshift64 generator, seeding, 53-bit draws;
  - `model` — modes, patterns, the scenario table, click marks, limits;
  - `session` — the session state machine (start/stop/toggle, keys, focus,
    mode and heat-map buttons, firing, click and expiry counters, click log);
  - `field` — target lifetimes on a nanosecond game clock, spawn timing;
  - `bounded` — logs that keep only their newest entries;
  - `frame` — one frame of a click or tracking round, and one press of the
    fire button, composed from `session` and `field`;
  - `spawn` — placement of click targets on an integer pixel grid (an
    alternative placement; the program uses floating-point placement and
    does not call it);
  - `input` — which raw-input reads carry relative mouse motion;
  - `chart` — sparkline x spacing; `color` — GDI colour packing.
- `app/` — the Win32 program (winsafe GUI, raw input FFI, vsync pacer
  thread, float geometry and scoring, best-score file and CSV log).
- `tests/` — tests of the library on concrete values.
