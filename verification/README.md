# rsgb_core

A Game Boy (DMG) emulator core whose behaviour is stated as contracts and
proved with Verus.

Layout:

- `src/cart`: the cartridge header and the mappers (ROM only, MBC1, MBC2,
  MBC3 with its real-time clock), their save data.
- `src/interconnect`: the memory bus, the work and high RAM, the sprite
  attribute memory and the I/O registers: timer, DMA, joypad, LCD registers,
  and the audio unit with its channels.
- `src/ppu`: the pixel unit: mode state machine, sprite search, fetcher and
  FIFO pipeline.
- `src/cpu`: registers, flags, the stack, interrupt dispatch, operand
  fetching, and the parts of a step: interrupt service, the halted cycle,
  the opcode fetch and the delayed `EI`.
- `src/devices.rs`, `src/gameboy.rs`: the devices that the CPU drives (the
  dot and machine-cycle clocks, the frame buffer, the audio sample points)
  and the console.
- `src/bits.rs`: the bit-level facts that the proofs use.
- `tests/`: tests of the library on concrete values.
- `app/`: a command-line front end: file input and output, and the
  floating-point audio mixer.
