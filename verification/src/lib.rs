//! A CHIP-8 virtual machine: memory, frame buffer, keypad and the
//! interpreter engine that drives them, with machine-checked contracts.

pub mod cpu;
pub mod error;
pub mod frame_buffer;
pub mod instruction;
pub mod keypad;
pub mod laws;
pub mod memory;
pub mod model;
pub mod random;
pub mod sprite;
