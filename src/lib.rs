pub mod command;
pub mod display;
pub mod emulator;
pub mod instruction;
pub mod keyboard;
pub mod memory;
