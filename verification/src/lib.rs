//! A CHIP-8 interpreter core: memory, registers, screen, keyboard,
//! instruction decoding and execution, and the emulator's control logic.

pub mod memory;
pub mod registers;
pub mod keyboard;
pub mod screen;
pub mod instruction;
pub mod cpu;
pub mod emulator;
pub mod instructions;
pub mod input;
pub mod text;
pub mod clock;
pub mod laws;
