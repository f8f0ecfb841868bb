//! A CHIP-8 virtual machine: memory, framebuffer, instruction decoder and the
//! fetch-decode-execute engine, with machine-checked contracts.
pub mod cpu;
pub mod graphics;
pub mod instruction;
pub mod laws;
pub mod machine;
pub mod memory;
pub mod sprite;
pub mod state;
