//! An emulation core for the classic Game Boy: the register file, the
//! cartridge memory bank controllers, the address bus, the instruction table
//! and the CPU state machine, each with a machine-checked contract.

pub mod text;
pub mod classic;
pub mod classic_old;
pub mod emu;
pub mod ips;
pub mod audio;
pub mod graphics;
pub mod interface;
