//! A Game Boy (DMG) emulator core: cartridge mappers, memory bus,
//! timers, DMA, joypad, LCD registers, audio channels, pixel pipeline
//! and the CPU's operand fetching, with their behaviour stated as
//! contracts and proved.

pub mod bits;
pub mod utils;
pub mod settings;
pub mod cart;
pub mod cpu;
pub mod interconnect;
pub mod ppu;
pub mod devices;
pub mod debug;
pub mod gameboy;
