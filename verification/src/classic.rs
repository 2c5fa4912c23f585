//! The hardware model: a Sharp LR35902 CPU, its bus and its cartridges.

pub mod utils;
pub mod registers;
pub mod memory;
pub mod instruction;
pub mod cartridge;
pub mod console;
pub mod cpu;
