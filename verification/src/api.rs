//! What a host drives the machine through.

pub mod emulator;
pub mod ipc;
