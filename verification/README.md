# rustboy

A Game Boy (DMG) emulator core written in Verus. The library in `src/` holds
the machine model with its behaviour stated as contracts and proved:

- `mmu`, `system`: the 64 KiB memory map, the CPU registers, the joypad and
  the machine description; `init_emulator_state` sets the power-on state.
- `cpu`: `semantics` states what each instruction does as a function of the
  registers and memory, `opcode` and `cb` are the instruction handlers proved
  against it, `decode` and `cycles` give the dispatch, the cycle table and the
  interrupt and halt handling, `laws` relates instructions to one another.
- `timer`: the programmable timer.
- `gpu`: the LCD registers, tile and sprite decoding, the background, window
  and sprite layers, and the screen as an RGBA image of the `image` crate.
- `emulator`: one step of the running machine (joypad, CPU, display, timer).

`app/` is the program: it reads the cartridge file named on the command
line, opens a window with `glutin_window` and `opengl_graphics`, turns key
presses into joypad input, runs `emulation_step` until the vertical blank and
draws each frame.
