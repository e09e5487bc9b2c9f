# sad_boy

A Game Boy emulator that runs in the terminal, with a debugger. The emulator
core is a library verified with Verus; a thin program around it handles the
terminal.

## Layout

- `src/` — the verified library
  - `emu/` — the emulator: clock, CPU (`cpu/math.rs` for the arithmetic and
    its flags), instruction set and decoding (`rom.rs`), assembly text
    (`instruction/text.rs`), memory map and bus, GPU with tiles and objects
  - `debugger.rs` — pausing, stepping, breakpoints and snapshots to step back
  - `backend.rs` — frame buffers and the headless backend
  - `backend/terminal/` — what the terminal front end decides: key bindings,
    the graphics messages that draw frames, the TUI's state (memory panel,
    Go To Address box, scrolling) and colors
  - `util.rs` — bit access, flag packing, byte display
- `tests/` — tests of the library
- `app/` — the program: command line, ROM loading, terminal setup, input
  and signals, frame pacing, and drawing the TUI with Ratatui

## Running

```
sad_boy [--debug] [--breakpoint ADDRESS]... [--headless] ROM
```

Frames are drawn with the Kitty Terminal Graphics Protocol through POSIX
shared memory (`/dev/shm`), so a terminal that supports it is needed.
