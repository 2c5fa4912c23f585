//! Commands: an instruction with its mnemonic, its description, and how many
//! bytes it takes.

use vstd::prelude::*;
use super::registers::Registers;

verus! {

/// What kind of work an instruction does.
#[derive(Copy, Clone, Debug, PartialEq, Eq)]
pub enum Instruction {
    Nop,
    Load8BitRegister,
    Load16BitRegister,
    LoadMemoryAddress,
    Arithmetic8Bit,
    Arithmetic16Bit,
    Bitwise,
}

/// An instruction of the processor as the assembler knows it.
#[derive(Debug)]
pub struct Command {
    pub z80: String,
    pub opcode: u8,
    pub cmd: Instruction,
    pub description: String,
    pub bytes: usize,
}

impl Command {
    /// A command.
    pub fn new(code: u8, inst: &str, desc: &str, bytes: usize, cmd: Instruction) -> (c: Command)
        ensures
            c.opcode == code,
            c.z80@ == inst@,
            c.description@ == desc@,
            c.bytes == bytes,
            c.cmd == cmd,
    {
        Command {
            opcode: code,
            z80: String::from_str(inst),
            description: String::from_str(desc),
            cmd,
            bytes,
        }
    }

    /// The bytes of the argument of the command at `pc`: those that follow
    /// the opcode, as many as the command takes less one.
    pub open spec fn argument(&self, pc: u16, memory: Seq<u8>) -> Seq<u8> {
        if self.bytes >= 1 {
            memory.subrange(pc + 1, pc + self.bytes)
        } else {
            Seq::empty()
        }
    }

    /// Reads the argument of the command at `pc`, which the memory must
    /// hold whole. The command, the registers and the memory are left as
    /// they are.
    pub fn exec(&mut self, regs: &Registers, pc: u16, memory: &[u8]) -> (args: Vec<u8>)
        requires
            pc + old(self).bytes <= memory@.len(),
        ensures
            *final(self) == *old(self),
            args@ == old(self).argument(pc, memory@),
    {
        let len = memory.len();
        let mut args: Vec<u8> = Vec::new();
        let mut i: usize = 1;
        while i < self.bytes
            invariant
                *self == *old(self),
                pc + self.bytes <= memory@.len(),
                memory@.len() == len,
                1 <= i,
                self.bytes >= 1 ==> i <= self.bytes,
                args@ == (if self.bytes >= 1 {
                    memory@.subrange(pc + 1, pc + i)
                } else {
                    Seq::empty()
                }),
            decreases self.bytes - i,
        {
            args.push(memory[pc as usize + i]);
            i = i + 1;
            assert(args@ =~= memory@.subrange(pc + 1, pc + i));
        }
        args
    }
}

} // verus!
