//! Turning picture-unit state into pixels.

pub mod frame;
pub mod palette;
pub mod renderer;
