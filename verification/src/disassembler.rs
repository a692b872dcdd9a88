//! Disassembler for the CHIP-8. It works from the same decoded instructions
//! as the CPU, and gives each one as a line of text instead of executing it.

use crate::machine::{word_at, wrap16};
use crate::opcode::{decode, decoded, Instruction};
use crate::ram::{Memory, Ram};
use crate::text::{hex_word, push_hex_word, push_prefixed_hex, push_upper_hex, upper_hex};
use vstd::prelude::*;
use vstd::string::StringExecFns;

verus! {

/// The text `head`, a number in hexadecimal, and the text `tail`.
pub open spec fn with_number(head: Seq<char>, a: u8, tail: Seq<char>) -> Seq<char> {
    head + upper_hex(a as nat) + tail
}

/// The text `head`, a number in hexadecimal, the text `middle` and a second
/// number in hexadecimal.
pub open spec fn with_numbers(head: Seq<char>, a: u8, middle: Seq<char>, b: u8) -> Seq<char> {
    head + upper_hex(a as nat) + middle + upper_hex(b as nat)
}

/// The text `head` and an address in hexadecimal behind `0x`.
pub open spec fn with_address(head: Seq<char>, addr: u16) -> Seq<char> {
    head + "0x"@ + upper_hex(addr as nat)
}

/// The mnemonic of an instruction with its operands.
pub open spec fn mnemonic_text(instr: Instruction) -> Seq<char> {
    match instr {
        Instruction::Cls => "CLS"@,
        Instruction::Ret => "RET"@,
        Instruction::Sys { addr } => "SYS 0x"@ + hex_word(addr),
        Instruction::Jp { addr } => with_address("JP "@, addr),
        Instruction::Call { addr } => with_address("CALL "@, addr),
        Instruction::Se { x, kk } => with_numbers("SE V"@, x, ", "@, kk),
        Instruction::Sne { x, kk } => with_numbers("SNE V"@, x, ", "@, kk),
        Instruction::SeReg { x, y } => with_numbers("SE V"@, x, ", V"@, y),
        Instruction::Ldx { x, kk } => with_numbers("LD V"@, x, ", 0x"@, kk),
        Instruction::AddByte { x, kk } => with_numbers("ADD V"@, x, ", "@, kk),
        Instruction::Ld { x, y } => with_numbers("LD V"@, x, ", V"@, y),
        Instruction::Or { x, y } => with_numbers("OR V"@, x, ", V"@, y),
        Instruction::And { x, y } => with_numbers("AND V"@, x, ", V"@, y),
        Instruction::Xor { x, y } => with_numbers("XOR V"@, x, ", V"@, y),
        Instruction::AddReg { x, y } => with_numbers("ADD V"@, x, ", V"@, y),
        Instruction::Sub { x, y } => with_numbers("SUB V"@, x, ", V"@, y),
        Instruction::Shr { x } => with_number("SHR V"@, x, ""@),
        Instruction::Subn { x, y } => with_numbers("SUBN V"@, x, ", V"@, y),
        Instruction::Shl { x } => with_number("SHL V"@, x, ""@),
        Instruction::SneReg { x, y } => with_numbers("SNE V"@, x, ", V"@, y),
        Instruction::Ldi { addr } => with_address("LD I, "@, addr),
        Instruction::JpV0 { addr } => with_address("JP V0, "@, addr),
        Instruction::Rnd { x, kk } => with_numbers("RND V"@, x, ", "@, kk),
        Instruction::Drw { x, y, n } => with_numbers("DRW (V"@, x, ", V"@, y) + with_number(
            ") for "@,
            n,
            " bytes"@,
        ),
        Instruction::Skp { x } => with_number("SKP V"@, x, ""@),
        Instruction::Sknp { x } => with_number("SKNP V"@, x, ""@),
        Instruction::LdDtIntoVx { x } => with_number("LD V"@, x, ", DT"@),
        Instruction::LdKIntoVx { x } => with_number("LD V"@, x, ", K"@),
        Instruction::LdVxIntoDt { x } => with_number("LD DT, V"@, x, ""@),
        Instruction::LdVxIntoSt { x } => with_number("LD ST, V"@, x, ""@),
        Instruction::AddVx { x } => with_number("ADD I, V"@, x, ""@),
        Instruction::LdVxDigitIntoF { x } => with_number("LD F, V"@, x, ""@),
        Instruction::LdVxIntoBcd { x } => with_number("LD B, V"@, x, ""@),
        Instruction::LdV0ToVxIntoI { x } => with_number("LD [I], V"@, x, ""@),
        Instruction::LdIIntoV0ToVx { x } => with_number("LD V"@, x, ", [I]"@),
        Instruction::Unknown { op } => "Unknown opcode: 0x"@ + hex_word(op),
    }
}

/// One line of a listing: the address, the raw word and the mnemonic of the
/// instruction that the word stands for.
pub open spec fn listing_line(pc: u16, op: u16) -> Seq<char> {
    "0x"@ + upper_hex(pc as nat) + ": (0x"@ + hex_word(op) + ") "@ + mnemonic_text(decoded(op))
}

/// How far the cursor is from the end of the program, counted around the end
/// of the address space if it lies behind the program.
pub open spec fn distance(pc: u16, rom_length: u16) -> int {
    if pc < 0x200 + rom_length {
        0x200 + rom_length - pc
    } else {
        0x10000 + 0x200 + rom_length - pc
    }
}

/// The listing of the instructions from `pc` on: one line for the word at
/// `pc`, and then, as long as the cursor has not reached the end of the
/// program at `0x200 + rom_length`, for each word that follows.
pub open spec fn listing(mem: Seq<u8>, pc: u16, rom_length: u16) -> Seq<Seq<char>>
    decreases distance(pc, rom_length),
    when rom_length <= 0xFDFE
{
    let line = listing_line(pc, word_at(mem, pc));
    let next = wrap16(pc + 2);
    if next >= 0x200 + rom_length {
        seq![line]
    } else {
        seq![line] + listing(mem, next, rom_length)
    }
}

/// The number of lines in the listing from `pc` on: one for every two bytes
/// up to the end of the program, and one if `pc` lies at or behind the end.
pub open spec fn line_count(pc: u16, rom_length: u16) -> int {
    if pc < 0x200 + rom_length {
        (0x200 + rom_length - pc + 1) / 2
    } else {
        1
    }
}

/// A listing that does not run around the end of the address space has one
/// line for every second address, in program order: line `k` is the line of
/// the word at `pc + 2 * k`.
pub proof fn lemma_listing_lines(mem: Seq<u8>, pc: u16, rom_length: u16)
    requires
        rom_length <= 0xFDFE,
        pc <= 0xFFFD,
    ensures
        listing(mem, pc, rom_length).len() == line_count(pc, rom_length),
        forall|k: int|
            0 <= k < line_count(pc, rom_length) ==> #[trigger] listing(mem, pc, rom_length)[k]
                == listing_line((pc + 2 * k) as u16, word_at(mem, (pc + 2 * k) as u16)),
    decreases distance(pc, rom_length),
{
    let all = listing(mem, pc, rom_length);
    let first = listing_line(pc, word_at(mem, pc));
    let next = (pc + 2) as u16;
    assert(wrap16(pc + 2) == next);
    if next >= 0x200 + rom_length {
        assert(all == seq![first]);
        assert(line_count(pc, rom_length) == 1);
    } else {
        let rest = listing(mem, next, rom_length);
        assert(all == seq![first] + rest);
        lemma_listing_lines(mem, next, rom_length);
        assert(line_count(pc, rom_length) == 1 + line_count(next, rom_length));
        assert forall|k: int| 0 <= k < line_count(pc, rom_length) implies #[trigger] all[k]
            == listing_line((pc + 2 * k) as u16, word_at(mem, (pc + 2 * k) as u16)) by {
            if k > 0 {
                assert(all[k] == rest[k - 1]);
                assert(next + 2 * (k - 1) == pc + 2 * k);
            }
        }
    }
}

/// Builds the text `head`, a number in hexadecimal, and the text `tail`.
fn number_text(head: &str, a: u8, tail: &str) -> (text: String)
    ensures
        text@ == with_number(head@, a, tail@),
{
    let mut text = String::from_str(head);
    push_upper_hex(&mut text, a as u16);
    text.append(tail);
    text
}

/// Builds the text `head`, a number in hexadecimal, the text `middle` and a
/// second number in hexadecimal.
fn numbers_text(head: &str, a: u8, middle: &str, b: u8) -> (text: String)
    ensures
        text@ == with_numbers(head@, a, middle@, b),
{
    let mut text = String::from_str(head);
    push_upper_hex(&mut text, a as u16);
    text.append(middle);
    push_upper_hex(&mut text, b as u16);
    text
}

/// Builds the text `head` and an address in hexadecimal behind `0x`.
fn address_text(head: &str, addr: u16) -> (text: String)
    ensures
        text@ == with_address(head@, addr),
{
    let mut text = String::from_str(head);
    push_prefixed_hex(&mut text, addr);
    text
}

/// Disassembler for the CHIP-8.
pub struct Disassembler {
    /// Current program counter. Initialized to 0x200.
    pub pc: u16,
    /// Emulated RAM of the CHIP-8.
    pub ram: Ram,
}

impl Disassembler {
    /// Fetches the next opcode from memory and returns the program counter
    /// for the opcode and the opcode in a tuple.
    pub fn next_opcode(&mut self) -> (fetched: (u16, u16))
        ensures
            fetched.0 == old(self).pc,
            fetched.1 == word_at(old(self).ram.bytes(), old(self).pc),
            final(self).pc == wrap16(old(self).pc + 2),
            final(self).ram.bytes() == old(self).ram.bytes(),
    {
        let hi = self.ram.lb(self.pc) as u16;
        let low = self.ram.lb(self.pc.wrapping_add(1)) as u16;
        let pc = self.pc;
        self.pc = self.pc.wrapping_add(2);
        assert((hi << 8) | low == hi * 0x100 + low) by (bit_vector)
            requires
                hi < 0x100,
                low < 0x100,
        ;
        (pc, (hi << 8) | low)
    }

    /// Clear the display.
    pub fn cls(&mut self) -> (text: String)
        ensures
            text@ == mnemonic_text(Instruction::Cls),
            *final(self) == *old(self),
    {
        String::from_str("CLS")
    }

    /// Return from a subroutine.
    pub fn ret(&mut self) -> (text: String)
        ensures
            text@ == mnemonic_text(Instruction::Ret),
            *final(self) == *old(self),
    {
        String::from_str("RET")
    }

    /// Jump to a machine code routine at addr.
    pub fn sys(&mut self, addr: u16) -> (text: String)
        ensures
            text@ == mnemonic_text(Instruction::Sys { addr }),
            *final(self) == *old(self),
    {
        let mut text = String::from_str("SYS 0x");
        push_hex_word(&mut text, addr);
        text
    }

    /// Jump to location addr.
    pub fn jp(&mut self, addr: u16) -> (text: String)
        ensures
            text@ == mnemonic_text(Instruction::Jp { addr }),
            *final(self) == *old(self),
    {
        address_text("JP ", addr)
    }

    /// Call subroutine at addr.
    pub fn call(&mut self, addr: u16) -> (text: String)
        ensures
            text@ == mnemonic_text(Instruction::Call { addr }),
            *final(self) == *old(self),
    {
        address_text("CALL ", addr)
    }

    /// Skip next instruction if Vreg == val.
    pub fn se(&mut self, reg: u8, val: u8) -> (text: String)
        ensures
            text@ == mnemonic_text(Instruction::Se { x: reg, kk: val }),
            *final(self) == *old(self),
    {
        numbers_text("SE V", reg, ", ", val)
    }

    /// Skip next instruction if Vreg != val.
    pub fn sne(&mut self, reg: u8, val: u8) -> (text: String)
        ensures
            text@ == mnemonic_text(Instruction::Sne { x: reg, kk: val }),
            *final(self) == *old(self),
    {
        numbers_text("SNE V", reg, ", ", val)
    }

    /// Skip next instruction if Vreg1 == Vreg2.
    pub fn se_reg(&mut self, reg1: u8, reg2: u8) -> (text: String)
        ensures
            text@ == mnemonic_text(Instruction::SeReg { x: reg1, y: reg2 }),
            *final(self) == *old(self),
    {
        numbers_text("SE V", reg1, ", V", reg2)
    }

    /// Set Vreg = val.
    pub fn ldx(&mut self, reg: u8, val: u8) -> (text: String)
        ensures
            text@ == mnemonic_text(Instruction::Ldx { x: reg, kk: val }),
            *final(self) == *old(self),
    {
        numbers_text("LD V", reg, ", 0x", val)
    }

    /// Set Vreg = Vreg + byte.
    pub fn add_byte(&mut self, reg: u8, byte: u8) -> (text: String)
        ensures
            text@ == mnemonic_text(Instruction::AddByte { x: reg, kk: byte }),
            *final(self) == *old(self),
    {
        numbers_text("ADD V", reg, ", ", byte)
    }

    /// Set Vreg1 = Vreg2.
    pub fn ld(&mut self, reg1: u8, reg2: u8) -> (text: String)
        ensures
            text@ == mnemonic_text(Instruction::Ld { x: reg1, y: reg2 }),
            *final(self) == *old(self),
    {
        numbers_text("LD V", reg1, ", V", reg2)
    }

    /// Set Vreg1 = Vreg1 | Vreg2.
    pub fn or(&mut self, reg1: u8, reg2: u8) -> (text: String)
        ensures
            text@ == mnemonic_text(Instruction::Or { x: reg1, y: reg2 }),
            *final(self) == *old(self),
    {
        numbers_text("OR V", reg1, ", V", reg2)
    }

    /// Set Vreg1 = Vreg1 & Vreg2.
    pub fn and(&mut self, reg1: u8, reg2: u8) -> (text: String)
        ensures
            text@ == mnemonic_text(Instruction::And { x: reg1, y: reg2 }),
            *final(self) == *old(self),
    {
        numbers_text("AND V", reg1, ", V", reg2)
    }

    /// Set Vreg1 = Vreg1 ^ Vreg2.
    pub fn xor(&mut self, reg1: u8, reg2: u8) -> (text: String)
        ensures
            text@ == mnemonic_text(Instruction::Xor { x: reg1, y: reg2 }),
            *final(self) == *old(self),
    {
        numbers_text("XOR V", reg1, ", V", reg2)
    }

    /// Set Vreg1 = Vreg1 + Vreg2, set VF = carry.
    pub fn add_reg(&mut self, reg1: u8, reg2: u8) -> (text: String)
        ensures
            text@ == mnemonic_text(Instruction::AddReg { x: reg1, y: reg2 }),
            *final(self) == *old(self),
    {
        numbers_text("ADD V", reg1, ", V", reg2)
    }

    /// Set Vreg1 = Vreg1 - Vreg2, set VF = NOT borrow.
    pub fn sub(&mut self, reg1: u8, reg2: u8) -> (text: String)
        ensures
            text@ == mnemonic_text(Instruction::Sub { x: reg1, y: reg2 }),
            *final(self) == *old(self),
    {
        numbers_text("SUB V", reg1, ", V", reg2)
    }

    /// Set Vreg = Vreg SHR 1.
    pub fn shr(&mut self, reg: u8) -> (text: String)
        ensures
            text@ == mnemonic_text(Instruction::Shr { x: reg }),
            *final(self) == *old(self),
    {
        number_text("SHR V", reg, "")
    }

    /// Set Vreg1 = Vreg2 - Vreg1, set VF = NOT borrow.
    pub fn subn(&mut self, reg1: u8, reg2: u8) -> (text: String)
        ensures
            text@ == mnemonic_text(Instruction::Subn { x: reg1, y: reg2 }),
            *final(self) == *old(self),
    {
        numbers_text("SUBN V", reg1, ", V", reg2)
    }

    /// Set Vreg = Vreg SHL 1.
    pub fn shl(&mut self, reg: u8) -> (text: String)
        ensures
            text@ == mnemonic_text(Instruction::Shl { x: reg }),
            *final(self) == *old(self),
    {
        number_text("SHL V", reg, "")
    }

    /// Skip next instruction if Vreg1 != Vreg2.
    pub fn sne_reg(&mut self, reg1: u8, reg2: u8) -> (text: String)
        ensures
            text@ == mnemonic_text(Instruction::SneReg { x: reg1, y: reg2 }),
            *final(self) == *old(self),
    {
        numbers_text("SNE V", reg1, ", V", reg2)
    }

    /// Set I = val.
    pub fn ldi(&mut self, val: u16) -> (text: String)
        ensures
            text@ == mnemonic_text(Instruction::Ldi { addr: val }),
            *final(self) == *old(self),
    {
        address_text("LD I, ", val)
    }

    /// Jump to location addr + V0.
    pub fn jp_v0(&mut self, addr: u16) -> (text: String)
        ensures
            text@ == mnemonic_text(Instruction::JpV0 { addr }),
            *final(self) == *old(self),
    {
        address_text("JP V0, ", addr)
    }

    /// Set Vreg = random byte & byte.
    pub fn rnd(&mut self, reg: u8, byte: u8) -> (text: String)
        ensures
            text@ == mnemonic_text(Instruction::Rnd { x: reg, kk: byte }),
            *final(self) == *old(self),
    {
        numbers_text("RND V", reg, ", ", byte)
    }

    /// Display n-byte sprite starting at memory location I at (Vx, Vy), set
    /// VF = collision.
    pub fn drw(&mut self, xreg: u8, yreg: u8, bytes: u8) -> (text: String)
        ensures
            text@ == mnemonic_text(Instruction::Drw { x: xreg, y: yreg, n: bytes }),
            *final(self) == *old(self),
    {
        let mut text = numbers_text("DRW (V", xreg, ", V", yreg);
        let count = number_text(") for ", bytes, " bytes");
        text.append(count.as_str());
        text
    }

    /// Skip next instruction if key with the value of Vreg is pressed.
    pub fn skp(&mut self, reg: u8) -> (text: String)
        ensures
            text@ == mnemonic_text(Instruction::Skp { x: reg }),
            *final(self) == *old(self),
    {
        number_text("SKP V", reg, "")
    }

    /// Skip next instruction if key with the value of Vreg is not pressed.
    pub fn sknp(&mut self, reg: u8) -> (text: String)
        ensures
            text@ == mnemonic_text(Instruction::Sknp { x: reg }),
            *final(self) == *old(self),
    {
        number_text("SKNP V", reg, "")
    }

    /// Set Vreg = delay timer value.
    pub fn ld_dt_into_vx(&mut self, reg: u8) -> (text: String)
        ensures
            text@ == mnemonic_text(Instruction::LdDtIntoVx { x: reg }),
            *final(self) == *old(self),
    {
        number_text("LD V", reg, ", DT")
    }

    /// Wait for a key press, store the value of the key in Vreg.
    pub fn ld_k_into_vx(&mut self, reg: u8) -> (text: String)
        ensures
            text@ == mnemonic_text(Instruction::LdKIntoVx { x: reg }),
            *final(self) == *old(self),
    {
        number_text("LD V", reg, ", K")
    }

    /// Set delay timer = Vreg.
    pub fn ld_vx_into_dt(&mut self, reg: u8) -> (text: String)
        ensures
            text@ == mnemonic_text(Instruction::LdVxIntoDt { x: reg }),
            *final(self) == *old(self),
    {
        number_text("LD DT, V", reg, "")
    }

    /// Set sound timer = Vreg.
    pub fn ld_vx_into_st(&mut self, reg: u8) -> (text: String)
        ensures
            text@ == mnemonic_text(Instruction::LdVxIntoSt { x: reg }),
            *final(self) == *old(self),
    {
        number_text("LD ST, V", reg, "")
    }

    /// Set I = I + Vreg.
    pub fn add_vx(&mut self, reg: u8) -> (text: String)
        ensures
            text@ == mnemonic_text(Instruction::AddVx { x: reg }),
            *final(self) == *old(self),
    {
        number_text("ADD I, V", reg, "")
    }

    /// Set I = location of sprite for digit Vreg.
    pub fn ld_vx_digit_into_f(&mut self, reg: u8) -> (text: String)
        ensures
            text@ == mnemonic_text(Instruction::LdVxDigitIntoF { x: reg }),
            *final(self) == *old(self),
    {
        number_text("LD F, V", reg, "")
    }

    /// Store BCD representation of Vreg in memory locations I, I+1, and I+2.
    pub fn ld_vx_into_bcd(&mut self, reg: u8) -> (text: String)
        ensures
            text@ == mnemonic_text(Instruction::LdVxIntoBcd { x: reg }),
            *final(self) == *old(self),
    {
        number_text("LD B, V", reg, "")
    }

    /// Store registers V0 through Vreg in memory starting at location I.
    pub fn ld_v0_to_vx_into_i(&mut self, reg: u8) -> (text: String)
        ensures
            text@ == mnemonic_text(Instruction::LdV0ToVxIntoI { x: reg }),
            *final(self) == *old(self),
    {
        number_text("LD [I], V", reg, "")
    }

    /// Read registers V0 through Vreg from memory starting at location I.
    pub fn ld_i_into_v0_to_vx(&mut self, reg: u8) -> (text: String)
        ensures
            text@ == mnemonic_text(Instruction::LdIIntoV0ToVx { x: reg }),
            *final(self) == *old(self),
    {
        number_text("LD V", reg, ", [I]")
    }

    /// Handler function for unknown opcodes.
    pub fn unknown_opcode(&mut self, op: u16) -> (text: String)
        ensures
            text@ == mnemonic_text(Instruction::Unknown { op }),
            *final(self) == *old(self),
    {
        let mut text = String::from_str("Unknown opcode: 0x");
        push_hex_word(&mut text, op);
        text
    }

    /// The mnemonic of a decoded instruction with its operands.
    pub fn mnemonic(&mut self, instr: Instruction) -> (text: String)
        ensures
            text@ == mnemonic_text(instr),
            *final(self) == *old(self),
    {
        match instr {
            Instruction::Cls => self.cls(),
            Instruction::Ret => self.ret(),
            Instruction::Sys { addr } => self.sys(addr),
            Instruction::Jp { addr } => self.jp(addr),
            Instruction::Call { addr } => self.call(addr),
            Instruction::Se { x, kk } => self.se(x, kk),
            Instruction::Sne { x, kk } => self.sne(x, kk),
            Instruction::SeReg { x, y } => self.se_reg(x, y),
            Instruction::Ldx { x, kk } => self.ldx(x, kk),
            Instruction::AddByte { x, kk } => self.add_byte(x, kk),
            Instruction::Ld { x, y } => self.ld(x, y),
            Instruction::Or { x, y } => self.or(x, y),
            Instruction::And { x, y } => self.and(x, y),
            Instruction::Xor { x, y } => self.xor(x, y),
            Instruction::AddReg { x, y } => self.add_reg(x, y),
            Instruction::Sub { x, y } => self.sub(x, y),
            Instruction::Shr { x } => self.shr(x),
            Instruction::Subn { x, y } => self.subn(x, y),
            Instruction::Shl { x } => self.shl(x),
            Instruction::SneReg { x, y } => self.sne_reg(x, y),
            Instruction::Ldi { addr } => self.ldi(addr),
            Instruction::JpV0 { addr } => self.jp_v0(addr),
            Instruction::Rnd { x, kk } => self.rnd(x, kk),
            Instruction::Drw { x, y, n } => self.drw(x, y, n),
            Instruction::Skp { x } => self.skp(x),
            Instruction::Sknp { x } => self.sknp(x),
            Instruction::LdDtIntoVx { x } => self.ld_dt_into_vx(x),
            Instruction::LdKIntoVx { x } => self.ld_k_into_vx(x),
            Instruction::LdVxIntoDt { x } => self.ld_vx_into_dt(x),
            Instruction::LdVxIntoSt { x } => self.ld_vx_into_st(x),
            Instruction::AddVx { x } => self.add_vx(x),
            Instruction::LdVxDigitIntoF { x } => self.ld_vx_digit_into_f(x),
            Instruction::LdVxIntoBcd { x } => self.ld_vx_into_bcd(x),
            Instruction::LdV0ToVxIntoI { x } => self.ld_v0_to_vx_into_i(x),
            Instruction::LdIIntoV0ToVx { x } => self.ld_i_into_v0_to_vx(x),
            Instruction::Unknown { op } => self.unknown_opcode(op),
        }
    }

    /// One line of the listing, for the word `op` fetched at `pc`.
    pub fn line(&mut self, pc: u16, op: u16) -> (text: String)
        ensures
            text@ == listing_line(pc, op),
            *final(self) == *old(self),
    {
        let mut text = String::new();
        push_prefixed_hex(&mut text, pc);
        text.append(": (0x");
        push_hex_word(&mut text, op);
        text.append(") ");
        let mnemonic = self.mnemonic(decode(op));
        text.append(mnemonic.as_str());
        text
    }

    /// Run the disassembly and return the lines of the listing, in program
    /// order. Runs until the program counter reaches the end of the ROM, and
    /// gives at least one line.
    ///
    /// The end of the ROM must lie below the last address, or a program
    /// counter on an even address would step over it for ever.
    pub fn disasm(&mut self, rom_length: u16) -> (lines: Vec<String>)
        requires
            rom_length <= 0xFDFE,
        ensures
            lines.deep_view() == listing(old(self).ram.bytes(), old(self).pc, rom_length),
            final(self).ram.bytes() == old(self).ram.bytes(),
            final(self).pc >= 0x200 + rom_length,
    {
        let mut lines: Vec<String> = Vec::new();
        let end = 0x200 + rom_length as u32;
        loop
            invariant_except_break
                self.ram.bytes() == old(self).ram.bytes(),
                rom_length <= 0xFDFE,
                end == 0x200 + rom_length,
                lines.deep_view() + listing(self.ram.bytes(), self.pc, rom_length) == listing(
                    old(self).ram.bytes(),
                    old(self).pc,
                    rom_length,
                ),
            ensures
                self.ram.bytes() == old(self).ram.bytes(),
                self.pc >= 0x200 + rom_length,
                lines.deep_view() == listing(old(self).ram.bytes(), old(self).pc, rom_length),
            decreases distance(self.pc, rom_length),
        {
            let ghost before = lines.deep_view();
            let (pc, op) = self.next_opcode();
            let text = self.line(pc, op);
            lines.push(text);
            assert(lines.deep_view() =~= before + seq![listing_line(pc, op)]);
            if self.pc as u32 >= end {
                break ;
            }
        }
        lines
    }
}

} // verus!
