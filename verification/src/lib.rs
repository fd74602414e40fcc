//! A processor core for an 8-bit handheld console, with its register file,
//! its two opcode tables and its interrupt logic, driving a bus.

pub mod bits;
pub mod bus;
pub mod cpu;
pub mod emulator;
pub mod flat;
pub mod gb_rs_cpu;
pub mod harness;
pub mod ui;
