# nes

A NES emulator core whose behaviour is stated in contracts and proved with Verus.

- `src/` is the verified library. Every state-changing operation is specified against a
  mathematical view (`CpuState`, `BusView`, `PpuView`, `RendererView`, ...): the CPU with
  all official and unofficial 6502 instructions, the CPU bus and the NROM board, the PPU
  registers and memory map, the scanline renderer, controllers, iNES parsing, and the
  nestest-style trace and memory dump formatters. Proof functions named `lemma_*` in the
  `laws` modules state properties that span several operations (stack and subroutine
  round trips, interrupt return, ADC/SBC arithmetic, RAM and nametable mirroring, the
  PPUDATA read buffer, controller report order, the opcode table).
- `app/` is ordinary Rust around the library: run loops that hand the CPU to a caller's
  closure, frame delivery, clocks built on closures, reading ROM and palette files, and
  helpers that work in floating point.
- `tests/` exercises the library from outside.

The console is one ownership tree: `NES` owns the `CPU`, which owns the `Bus`, which owns
the board (`Mapper000`) and the `Renderer`; the board owns the `PPU` and the controllers,
and the PPU owns the cartridge and work memory.
