//! Emulated RAM for the CHIP-8 computer: a flat 4 KiB byte store whose
//! addresses wrap at 12 bits.

use crate::rom::Rom;
use vstd::prelude::*;

verus! {

/// The index into the store that a 16-bit address selects: its low 12 bits.
pub open spec fn cell(addr: u16) -> int {
    addr as int % 0x1000
}

/// Address at which a program is loaded.
pub const PROGRAM_START: usize = 0x200;

/// The data for the CHIP-8 font set. Each digit is 4 pixels wide and 5 pixels
/// high, resulting in 5 bytes of data for each digit.
pub const FONT_DATA: [u8; 80] = [
    0xF0, 0x90, 0x90, 0x90, 0xF0,  // 0
    0x20, 0x60, 0x20, 0x20, 0x70,  // 1
    0xF0, 0x10, 0xF0, 0x80, 0xF0,  // 2
    0xF0, 0x10, 0xF0, 0x10, 0xF0,  // 3
    0x90, 0x90, 0xF0, 0x10, 0x10,  // 4
    0xF0, 0x80, 0xF0, 0x10, 0xF0,  // 5
    0xF0, 0x80, 0xF0, 0x90, 0xF0,  // 6
    0xF0, 0x10, 0x20, 0x40, 0x40,  // 7
    0xF0, 0x90, 0xF0, 0x90, 0xF0,  // 8
    0xF0, 0x90, 0xF0, 0x10, 0xF0,  // 9
    0xF0, 0x90, 0xF0, 0x90, 0x90,  // A
    0xE0, 0x90, 0xE0, 0x90, 0xE0,  // B
    0xF0, 0x80, 0x80, 0x80, 0xF0,  // C
    0xE0, 0x90, 0x90, 0x90, 0xE0,  // D
    0xF0, 0x80, 0xF0, 0x80, 0xF0,  // E
    0xF0, 0x80, 0xF0, 0x80, 0x80,  // F
];

/// The memory that a program is started on: the font glyphs from address 0,
/// the program from address 0x200, and zero everywhere else.
pub open spec fn image(program: Seq<u8>) -> Seq<u8> {
    Seq::new(
        0x1000,
        |a: int|
            if a < 80 {
                FONT_DATA@[a]
            } else if 0x200 <= a < 0x200 + program.len() {
                program[a - 0x200]
            } else {
                0u8
            },
    )
}

/// Addresses wrap at 12 bits: the cell of an address is the number that its
/// low twelve bits form, it always lies in the store, and an address below
/// 0x1000 selects the cell of its own number.
pub proof fn lemma_cell_is_low_bits(addr: u16)
    ensures
        0 <= cell(addr) < 0x1000,
        cell(addr) == (addr & 0xFFF),
        cell(addr) == cell((addr & 0xFFF) as u16),
        addr < 0x1000 ==> cell(addr) == addr,
{
    assert(addr & 0xFFF == addr % 0x1000) by (bit_vector);
}

/// Two addresses that agree in their low twelve bits are the same address to
/// the memory: a load through either returns the same byte, and a store
/// through either has the same effect. So address 0x1200 stands for 0x200.
pub proof fn lemma_addresses_alias(mem: Seq<u8>, a: u16, b: u16, value: u8)
    requires
        a & 0xFFF == b & 0xFFF,
    ensures
        cell(a) == cell(b),
        mem[cell(a)] == mem[cell(b)],
        mem.update(cell(a), value) == mem.update(cell(b), value),
{
    lemma_cell_is_low_bits(a);
    lemma_cell_is_low_bits(b);
}

/// Interface of a memory implementation.
pub trait Memory {
    /// The contents, one byte per cell.
    spec fn bytes(&self) -> Seq<u8>;

    /// Every memory has exactly 4096 cells.
    proof fn lemma_size(&self)
        ensures
            self.bytes().len() == 0x1000,
    ;

    /// Load a byte from address `addr`. Only the lowest 12 bits of the
    /// address are used.
    fn lb(&mut self, addr: u16) -> (value: u8)
        ensures
            final(self).bytes() == old(self).bytes(),
            value == old(self).bytes()[cell(addr)],
    ;

    /// Store a byte at address `addr`. Only the lowest 12 bits of the
    /// address are used.
    fn sb(&mut self, addr: u16, value: u8)
        ensures
            final(self).bytes() == old(self).bytes().update(cell(addr), value),
    ;
}

/// Emulated RAM.
pub struct Ram {
    /// RAM storage. CHIP-8 contains 4 kilobytes of RAM.
    pub mem: [u8; 0x1000],
}

impl Ram {
    /// Initialize a new RAM with the font glyphs at address 0 and the ROM
    /// provided copied into the work area at address 0x200 onwards.
    pub fn new_from_rom(rom: &Rom) -> (ram: Ram)
        requires
            rom.wf(),
        ensures
            ram.bytes() == image(rom.program()),
    {
        let mut ram = Ram { mem: [0; 0x1000] };
        let mut k: usize = 0;
        while k < 80
            invariant
                k <= 80,
                forall|a: int| 0 <= a < k ==> ram.mem@[a] == FONT_DATA@[a],
                forall|a: int| k <= a < 0x1000 ==> ram.mem@[a] == 0,
            decreases 80 - k,
        {
            ram.mem[k] = FONT_DATA[k];
            k = k + 1;
        }
        let mut j: usize = 0;
        while j < rom.length
            invariant
                j <= rom.length <= 0xCA0,
                forall|a: int| 0 <= a < 80 ==> ram.mem@[a] == FONT_DATA@[a],
                forall|a: int| 0x200 <= a < 0x200 + j ==> ram.mem@[a] == rom.data@[a - 0x200],
                forall|a: int|
                    80 <= a < 0x1000 && !(0x200 <= a < 0x200 + j) ==> ram.mem@[a] == 0,
            decreases rom.length - j,
        {
            ram.mem[PROGRAM_START + j] = rom.data[j];
            j = j + 1;
        }
        ram
    }

    /// Initialize new empty RAM.
    pub fn new() -> (ram: Ram)
        ensures
            ram.bytes() == Seq::new(0x1000, |i: int| 0u8),
    {
        Ram { mem: [0; 0x1000] }
    }
}

impl Memory for Ram {
    open spec fn bytes(&self) -> Seq<u8> {
        self.mem@
    }

    proof fn lemma_size(&self) {
    }

    fn lb(&mut self, addr: u16) -> (value: u8) {
        assert(addr & 0xFFF == addr % 0x1000) by (bit_vector);
        self.mem[(addr & 0xFFF) as usize]
    }

    fn sb(&mut self, addr: u16, value: u8) {
        assert(addr & 0xFFF == addr % 0x1000) by (bit_vector);
        self.mem[(addr & 0xFFF) as usize] = value;
    }
}

} // verus!
