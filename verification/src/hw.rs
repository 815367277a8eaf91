//! The hardware of the console, one module per chip or connector.

pub mod bits;
pub mod bytes;
pub mod bus;
pub mod cartridge;
pub mod cpu;
pub mod joypad;
pub mod ppu;
