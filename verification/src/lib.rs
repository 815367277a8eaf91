//! A verified core of a Nintendo Entertainment System emulator.
//!
//! The crate holds the machine itself: the 6502 interpreter, the picture
//! processing unit, the bus that couples them, the cartridge loader, the
//! controller and the frame renderer. Presentation, input devices and files
//! belong to the host that drives it.

pub mod api;
pub mod hw;
pub mod rendering;
