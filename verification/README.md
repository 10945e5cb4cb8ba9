# nes_emulator

A NES emulator core written in Verus: the 6502 CPU, the PPU, the APU, the
cartridge mappers (NROM, MMC1, UNROM, CNROM), the controllers and the buses
that connect them. Each component's behaviour is stated as a contract over a
mathematical model of its state, and the library proves its code against
those contracts.

Layout:

- `src/` — the verified library. `cpu/` (instruction table, semantics,
  execution, trace lines), `ppu/` (registers, OAM, palette, VRAM bus,
  rendering), `apu/` (channels and frame sequencer), `cartridge/` (iNES
  parsing and mappers), `bus.rs`, `nes.rs` (the console), `state.rs` (saved
  states) and `laws.rs` (properties that relate several operations).
- `tests/` — tests of the library on concrete values.
- `app/` — the program around the library: file access (ROMs, palettes,
  battery saves, JSON saved states), the floating-point audio mixer and
  filters, and the nestest automation runner.
