# chip8

A CHIP-8 interpreter whose core is written in Verus and proved against its
contracts, with a terminal front end.

## Layout

- `src/` — the verified library:
  - `memory.rs`: the 4 KiB RAM, with the font loaded in the reserved area;
  - `registers.rs`: the register file and the subroutine stack;
  - `keyboard.rs`: the sixteen-key keypad;
  - `screen.rs`: the 64x32 monochrome display and sprites;
  - `instruction.rs`: decoding of the instruction set;
  - `text.rs`: the assembly text of instructions;
  - `cpu.rs`: the semantics of every instruction (`spec_execute`) and the
    processor that implements it;
  - `emulator.rs`: run states, messages, stepping and cycles;
  - `clock.rs`: the run loop's pause and resume time bookkeeping;
  - `input.rs`: key bindings and the application's decisions;
  - `instructions.rs`: the first, smaller instruction decoder;
  - `laws.rs`: properties that relate several operations.
- `tests/` — tests of the library.
- `app/` — the terminal program: command line, threads and clocks, input
  events and rendering.

Run a program with `chip8 run <rom> [--clock-speed <instructions per second>]`.
