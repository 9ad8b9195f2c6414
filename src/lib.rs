//! A cycle-stepped core of an 8-bit handheld console: register file, memory
//! bus, instruction decoder, microcode execution engine, CPU driver and the
//! graphics timing unit.

pub mod cpu;
pub mod executors;
pub mod gpu;
pub mod instruction;
pub mod memory_bus;
pub mod microcode;
pub mod registers;
