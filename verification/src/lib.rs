//! Emulation and disassembly library for the CHIP-8 computer.

pub mod cpu;
pub mod disassembler;
pub mod display;
pub mod input;
pub mod machine;
pub mod opcode;
pub mod ram;
pub mod random;
pub mod rom;
pub mod text;

use crate::disassembler::{listing, Disassembler};
use crate::ram::{image, Ram};
use crate::rom::Rom;
use vstd::prelude::*;

verus! {

/// Disassemble the provided rom using the disassembler. Returns the lines of
/// the listing: one line for each instruction word of the program, from
/// address 0x200 on, and a single line for an empty program.
pub fn disasm(rom: Rom) -> (lines: Vec<String>)
    requires
        rom.wf(),
    ensures
        lines.deep_view() == listing(image(rom.program()), 0x200, rom.length as u16),
{
    let mut dis = Disassembler { pc: 0x200, ram: Ram::new_from_rom(&rom) };
    dis.disasm(rom.length as u16)
}

} // verus!
