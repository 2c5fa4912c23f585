//! A third model of the console: registers over one memory, and the table of
//! instructions with what each of them does in words.

pub mod registers;
pub mod opcodes;
pub mod emulator;
pub mod input;
