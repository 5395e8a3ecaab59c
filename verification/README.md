# nes

Components of a cycle-stepped NES emulator, written in Verus: Verus proves
every function under `src/` against its contract, and the public functions
state their results in `ensures` clauses.

- `src/bus.rs`, `src/memory.rs`: CPU and PPU address decoding, RAM/ROM
  blocks and bank mapping.
- `src/cpu/`: the 6502 register file, the interrupt sequencer (power,
  reset, NMI, IRQ, BRK) and the OAM/DMC DMA unit.
- `src/ppu.rs`, `src/ppu_step.rs`: the picture processing unit (registers,
  open bus, VRAM access, sprite evaluation, background and sprite
  pipelines, one dot per `tick`) and its per-region dot schedule.
- `src/apu.rs`, `src/channel/`: frame sequencer, pulse, triangle, noise and
  DMC channels, and the lookup-table mixer.
- `src/cartridge.rs`: iNES / NES 2.0 and FDS image parsing.
- `src/mapper/`: the cartridge boards and their expansion audio.
- `src/input.rs`, `src/debug.rs`, `src/run_until.rs`, `src/ring_buf.rs`,
  `src/region.rs`: controllers, debugger state, stop conditions, the sample
  ring buffer and the region constants.

Not here: the 6502 instruction core (decoding and executing opcodes), the
machine that wires CPU, PPU, APU and cartridge together and runs them, the
instruction tracer, and the MMC5, Rainbow, NSF and Game Genie boards. The
opcode table the core and the tracer decode with, the banked-memory helper
the Rainbow and MMC5 sources drive, and the MMC5, NSF-player and Game Genie
sources are not part of this code base, nor are those of the GxROM and
Color Dreams boards; iNES images naming any of these boards (MMC5, Color
Dreams, GxROM, Rainbow) get an NROM board.

`app/` holds what stays outside the proofs: reading files, the
floating-point clock rates and mixer, and the per-channel level history.
`tests/` exercises the library on concrete values.
