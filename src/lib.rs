//! Emulation core of a classic 8-bit handheld console: register file, memory
//! bus, interrupt controller, tile engine, LCD controller and CPU.

pub mod registers;
pub mod palette;
pub mod interrupts;
pub mod ppu;
pub mod lcd;
pub mod bus;
pub mod instructions;
pub mod cpu;
pub mod cartridge;
