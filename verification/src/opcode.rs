//! The opcode dispatcher: decoding of a 16-bit instruction word into the
//! operation it selects and the operands it carries. The CPU and the
//! disassembler both work from the value that `decode` returns.

use vstd::prelude::*;

verus! {

/// One decoded instruction. `x` and `y` are register indices, `kk` is an
/// immediate byte, `n` an immediate nibble and `addr` a 12-bit address.
#[derive(Clone, Copy, Debug, PartialEq, Eq)]
pub enum Instruction {
    /// `00E0`: clear the display.
    Cls,
    /// `00EE`: return from a subroutine.
    Ret,
    /// `0NNN`: jump to a machine code routine (ignored).
    Sys { addr: u16 },
    /// `1NNN`: jump to `addr`.
    Jp { addr: u16 },
    /// `2NNN`: call the subroutine at `addr`.
    Call { addr: u16 },
    /// `3XKK`: skip the next instruction if `Vx == kk`.
    Se { x: u8, kk: u8 },
    /// `4XKK`: skip the next instruction if `Vx != kk`.
    Sne { x: u8, kk: u8 },
    /// `5XY0`: skip the next instruction if `Vx == Vy`.
    SeReg { x: u8, y: u8 },
    /// `6XKK`: set `Vx = kk`.
    Ldx { x: u8, kk: u8 },
    /// `7XKK`: set `Vx = Vx + kk`.
    AddByte { x: u8, kk: u8 },
    /// `8XY0`: set `Vx = Vy`.
    Ld { x: u8, y: u8 },
    /// `8XY1`: set `Vx = Vx | Vy`.
    Or { x: u8, y: u8 },
    /// `8XY2`: set `Vx = Vx & Vy`.
    And { x: u8, y: u8 },
    /// `8XY3`: set `Vx = Vx ^ Vy`.
    Xor { x: u8, y: u8 },
    /// `8XY4`: set `Vx = Vx + Vy`, `VF` = carry.
    AddReg { x: u8, y: u8 },
    /// `8XY5`: set `Vx = Vx - Vy`, `VF` = not borrow.
    Sub { x: u8, y: u8 },
    /// `8XY6`: set `Vx = Vx >> 1`, `VF` = the bit shifted out.
    Shr { x: u8 },
    /// `8XY7`: set `Vx = Vy - Vx`, `VF` = not borrow.
    Subn { x: u8, y: u8 },
    /// `8XYE`: set `Vx = Vx << 1`, `VF` = the bit shifted out.
    Shl { x: u8 },
    /// `9XY0`: skip the next instruction if `Vx != Vy`.
    SneReg { x: u8, y: u8 },
    /// `ANNN`: set `I = addr`.
    Ldi { addr: u16 },
    /// `BNNN`: jump to `addr + V0`.
    JpV0 { addr: u16 },
    /// `CXKK`: set `Vx` = random byte `& kk`.
    Rnd { x: u8, kk: u8 },
    /// `DXYN`: draw the `n`-byte sprite at `I` at `(Vx, Vy)`.
    Drw { x: u8, y: u8, n: u8 },
    /// `EX9E`: skip the next instruction if the key `Vx` is pressed.
    Skp { x: u8 },
    /// `EXA1`: skip the next instruction if the key `Vx` is not pressed.
    Sknp { x: u8 },
    /// `FX07`: set `Vx` = delay timer.
    LdDtIntoVx { x: u8 },
    /// `FX0A`: wait for a key press, store the key in `Vx`.
    LdKIntoVx { x: u8 },
    /// `FX15`: set delay timer = `Vx`.
    LdVxIntoDt { x: u8 },
    /// `FX18`: set sound timer = `Vx`.
    LdVxIntoSt { x: u8 },
    /// `FX1E`: set `I = I + Vx`.
    AddVx { x: u8 },
    /// `FX29`: set `I` = location of the sprite for the digit `Vx`.
    LdVxDigitIntoF { x: u8 },
    /// `FX33`: store the decimal digits of `Vx` at `I`, `I+1`, `I+2`.
    LdVxIntoBcd { x: u8 },
    /// `FX55`: store `V0..=Vx` in memory starting at `I`.
    LdV0ToVxIntoI { x: u8 },
    /// `FX65`: read `V0..=Vx` from memory starting at `I`.
    LdIIntoV0ToVx { x: u8 },
    /// Any word that matches no pattern above.
    Unknown { op: u16 },
}

/// The top nibble of the word, which selects the opcode family.
pub open spec fn family(op: u16) -> int {
    op as int / 0x1000
}

/// The second nibble: the register index `x`.
pub open spec fn field_x(op: u16) -> u8 {
    ((op as int / 0x100) % 0x10) as u8
}

/// The third nibble: the register index `y`.
pub open spec fn field_y(op: u16) -> u8 {
    ((op as int / 0x10) % 0x10) as u8
}

/// The lowest nibble.
pub open spec fn field_n(op: u16) -> u8 {
    (op as int % 0x10) as u8
}

/// The low byte: the immediate `kk`.
pub open spec fn field_kk(op: u16) -> u8 {
    (op as int % 0x100) as u8
}

/// The low twelve bits: the address `nnn`.
pub open spec fn field_addr(op: u16) -> u16 {
    (op as int % 0x1000) as u16
}

/// The register-register operation that the low nibble of an `8XYN` word
/// selects.
pub open spec fn decoded_alu(op: u16) -> Instruction {
    let x = field_x(op);
    let y = field_y(op);
    let n = field_n(op);
    if n == 0x0 {
        Instruction::Ld { x, y }
    } else if n == 0x1 {
        Instruction::Or { x, y }
    } else if n == 0x2 {
        Instruction::And { x, y }
    } else if n == 0x3 {
        Instruction::Xor { x, y }
    } else if n == 0x4 {
        Instruction::AddReg { x, y }
    } else if n == 0x5 {
        Instruction::Sub { x, y }
    } else if n == 0x6 {
        Instruction::Shr { x }
    } else if n == 0x7 {
        Instruction::Subn { x, y }
    } else if n == 0xE {
        Instruction::Shl { x }
    } else {
        Instruction::Unknown { op }
    }
}

/// The transfer that the low byte of an `FXKK` word selects.
pub open spec fn decoded_transfer(op: u16) -> Instruction {
    let x = field_x(op);
    let kk = field_kk(op);
    if kk == 0x07 {
        Instruction::LdDtIntoVx { x }
    } else if kk == 0x0A {
        Instruction::LdKIntoVx { x }
    } else if kk == 0x15 {
        Instruction::LdVxIntoDt { x }
    } else if kk == 0x18 {
        Instruction::LdVxIntoSt { x }
    } else if kk == 0x1E {
        Instruction::AddVx { x }
    } else if kk == 0x29 {
        Instruction::LdVxDigitIntoF { x }
    } else if kk == 0x33 {
        Instruction::LdVxIntoBcd { x }
    } else if kk == 0x55 {
        Instruction::LdV0ToVxIntoI { x }
    } else if kk == 0x65 {
        Instruction::LdIIntoV0ToVx { x }
    } else {
        Instruction::Unknown { op }
    }
}

/// The instruction that a word stands for.
pub open spec fn decoded(op: u16) -> Instruction {
    let f = family(op);
    let x = field_x(op);
    let y = field_y(op);
    let n = field_n(op);
    let kk = field_kk(op);
    let addr = field_addr(op);
    if op == 0x00E0 {
        Instruction::Cls
    } else if op == 0x00EE {
        Instruction::Ret
    } else if f == 0x0 {
        Instruction::Sys { addr }
    } else if f == 0x1 {
        Instruction::Jp { addr }
    } else if f == 0x2 {
        Instruction::Call { addr }
    } else if f == 0x3 {
        Instruction::Se { x, kk }
    } else if f == 0x4 {
        Instruction::Sne { x, kk }
    } else if f == 0x5 {
        if n == 0 {
            Instruction::SeReg { x, y }
        } else {
            Instruction::Unknown { op }
        }
    } else if f == 0x6 {
        Instruction::Ldx { x, kk }
    } else if f == 0x7 {
        Instruction::AddByte { x, kk }
    } else if f == 0x8 {
        decoded_alu(op)
    } else if f == 0x9 {
        if n == 0 {
            Instruction::SneReg { x, y }
        } else {
            Instruction::Unknown { op }
        }
    } else if f == 0xA {
        Instruction::Ldi { addr }
    } else if f == 0xB {
        Instruction::JpV0 { addr }
    } else if f == 0xC {
        Instruction::Rnd { x, kk }
    } else if f == 0xD {
        Instruction::Drw { x, y, n }
    } else if f == 0xE {
        if kk == 0x9E {
            Instruction::Skp { x }
        } else if kk == 0xA1 {
            Instruction::Sknp { x }
        } else {
            Instruction::Unknown { op }
        }
    } else {
        decoded_transfer(op)
    }
}

impl Instruction {
    /// Every register index and nibble is below 16 and every address below
    /// 0x1000, as in any decoded instruction.
    pub open spec fn wf(self) -> bool {
        match self {
            Instruction::Cls | Instruction::Ret | Instruction::Unknown { .. } => true,
            Instruction::Sys { addr }
            | Instruction::Jp { addr }
            | Instruction::Call { addr }
            | Instruction::Ldi { addr }
            | Instruction::JpV0 { addr } => addr < 0x1000,
            Instruction::Se { x, .. }
            | Instruction::Sne { x, .. }
            | Instruction::Ldx { x, .. }
            | Instruction::AddByte { x, .. }
            | Instruction::Rnd { x, .. }
            | Instruction::Shr { x }
            | Instruction::Shl { x }
            | Instruction::Skp { x }
            | Instruction::Sknp { x }
            | Instruction::LdDtIntoVx { x }
            | Instruction::LdKIntoVx { x }
            | Instruction::LdVxIntoDt { x }
            | Instruction::LdVxIntoSt { x }
            | Instruction::AddVx { x }
            | Instruction::LdVxDigitIntoF { x }
            | Instruction::LdVxIntoBcd { x }
            | Instruction::LdV0ToVxIntoI { x }
            | Instruction::LdIIntoV0ToVx { x } => x < 16,
            Instruction::SeReg { x, y }
            | Instruction::Ld { x, y }
            | Instruction::Or { x, y }
            | Instruction::And { x, y }
            | Instruction::Xor { x, y }
            | Instruction::AddReg { x, y }
            | Instruction::Sub { x, y }
            | Instruction::Subn { x, y }
            | Instruction::SneReg { x, y } => x < 16 && y < 16,
            Instruction::Drw { x, y, n } => x < 16 && y < 16 && n < 16,
        }
    }
}

/// The word whose top nibble is `f` and whose other nibbles are `x`, `y` and
/// `n`.
pub open spec fn word_of(f: u8, x: u8, y: u8, n: u8) -> u16 {
    (f * 0x1000 + x * 0x100 + y * 0x10 + n) as u16
}

/// The word whose top nibble is `f`, whose second nibble is `x` and whose low
/// byte is `kk`.
pub open spec fn word_with_byte(f: u8, x: u8, kk: u8) -> u16 {
    (f * 0x1000 + x * 0x100 + kk) as u16
}

/// The word whose top nibble is `f` and whose low twelve bits are `addr`.
pub open spec fn word_with_address(f: u8, addr: u16) -> u16 {
    (f * 0x1000 + addr) as u16
}

/// The instruction word that stands for an instruction. For the register
/// operations that name a single register the unused nibble is zero.
pub open spec fn encoded(instr: Instruction) -> u16 {
    match instr {
        Instruction::Cls => 0x00E0,
        Instruction::Ret => 0x00EE,
        Instruction::Sys { addr } => word_with_address(0x0, addr),
        Instruction::Jp { addr } => word_with_address(0x1, addr),
        Instruction::Call { addr } => word_with_address(0x2, addr),
        Instruction::Se { x, kk } => word_with_byte(0x3, x, kk),
        Instruction::Sne { x, kk } => word_with_byte(0x4, x, kk),
        Instruction::SeReg { x, y } => word_of(0x5, x, y, 0x0),
        Instruction::Ldx { x, kk } => word_with_byte(0x6, x, kk),
        Instruction::AddByte { x, kk } => word_with_byte(0x7, x, kk),
        Instruction::Ld { x, y } => word_of(0x8, x, y, 0x0),
        Instruction::Or { x, y } => word_of(0x8, x, y, 0x1),
        Instruction::And { x, y } => word_of(0x8, x, y, 0x2),
        Instruction::Xor { x, y } => word_of(0x8, x, y, 0x3),
        Instruction::AddReg { x, y } => word_of(0x8, x, y, 0x4),
        Instruction::Sub { x, y } => word_of(0x8, x, y, 0x5),
        Instruction::Shr { x } => word_of(0x8, x, 0, 0x6),
        Instruction::Subn { x, y } => word_of(0x8, x, y, 0x7),
        Instruction::Shl { x } => word_of(0x8, x, 0, 0xE),
        Instruction::SneReg { x, y } => word_of(0x9, x, y, 0x0),
        Instruction::Ldi { addr } => word_with_address(0xA, addr),
        Instruction::JpV0 { addr } => word_with_address(0xB, addr),
        Instruction::Rnd { x, kk } => word_with_byte(0xC, x, kk),
        Instruction::Drw { x, y, n } => word_of(0xD, x, y, n),
        Instruction::Skp { x } => word_with_byte(0xE, x, 0x9E),
        Instruction::Sknp { x } => word_with_byte(0xE, x, 0xA1),
        Instruction::LdDtIntoVx { x } => word_with_byte(0xF, x, 0x07),
        Instruction::LdKIntoVx { x } => word_with_byte(0xF, x, 0x0A),
        Instruction::LdVxIntoDt { x } => word_with_byte(0xF, x, 0x15),
        Instruction::LdVxIntoSt { x } => word_with_byte(0xF, x, 0x18),
        Instruction::AddVx { x } => word_with_byte(0xF, x, 0x1E),
        Instruction::LdVxDigitIntoF { x } => word_with_byte(0xF, x, 0x29),
        Instruction::LdVxIntoBcd { x } => word_with_byte(0xF, x, 0x33),
        Instruction::LdV0ToVxIntoI { x } => word_with_byte(0xF, x, 0x55),
        Instruction::LdIIntoV0ToVx { x } => word_with_byte(0xF, x, 0x65),
        Instruction::Unknown { op } => op,
    }
}

/// Every word decodes to a well-formed instruction.
pub proof fn lemma_decoded_is_well_formed(op: u16)
    ensures
        decoded(op).wf(),
{
}

/// The fields of a word that is put together from four nibbles.
pub proof fn lemma_fields_of_word(f: u8, x: u8, y: u8, n: u8)
    requires
        f < 16,
        x < 16,
        y < 16,
        n < 16,
    ensures
        family(word_of(f, x, y, n)) == f,
        field_x(word_of(f, x, y, n)) == x,
        field_y(word_of(f, x, y, n)) == y,
        field_n(word_of(f, x, y, n)) == n,
        field_kk(word_of(f, x, y, n)) == y * 0x10 + n,
        field_addr(word_of(f, x, y, n)) == x * 0x100 + y * 0x10 + n,
{
    let op = word_of(f, x, y, n);
    assert(op == f * 0x1000 + x * 0x100 + y * 0x10 + n);
    assert(op / 0x1000 == f && (op / 0x100) % 0x10 == x && (op / 0x10) % 0x10 == y && op % 0x10
        == n && op % 0x100 == y * 0x10 + n && op % 0x1000 == x * 0x100 + y * 0x10 + n)
        by (bit_vector)
        requires
            f < 16,
            x < 16,
            y < 16,
            n < 16,
            op == f * 0x1000 + x * 0x100 + y * 0x10 + n,
    ;
}

/// Decoding an encoded instruction gives the instruction back: every
/// well-formed instruction but `Unknown` is what at least one word stands
/// for. The two `SYS` addresses that are the words of `CLS` and `RET` are
/// left out, as those words decode to `CLS` and `RET`.
pub proof fn lemma_decode_of_encoded(instr: Instruction)
    requires
        instr.wf(),
        !(instr is Unknown),
        instr != (Instruction::Sys { addr: 0x0E0 }),
        instr != (Instruction::Sys { addr: 0x0EE }),
    ensures
        decoded(encoded(instr)) == instr,
{
    let op = encoded(instr);
    let f = family(op) as u8;
    let x = field_x(op);
    let y = field_y(op);
    let n = field_n(op);
    assert(f < 16 && x < 16 && y < 16 && n < 16 && op == word_of(f, x, y, n)) by (bit_vector)
        requires
            f == op / 0x1000,
            x == (op / 0x100) % 0x10,
            y == (op / 0x10) % 0x10,
            n == op % 0x10,
    ;
    lemma_fields_of_word(f, x, y, n);
    match instr {
        Instruction::Cls | Instruction::Ret => {},
        Instruction::Sys { addr }
        | Instruction::Jp { addr }
        | Instruction::Call { addr }
        | Instruction::Ldi { addr }
        | Instruction::JpV0 { addr } => {
            assert(field_addr(op) == addr);
        },
        Instruction::Se { x: r, kk }
        | Instruction::Sne { x: r, kk }
        | Instruction::Ldx { x: r, kk }
        | Instruction::AddByte { x: r, kk }
        | Instruction::Rnd { x: r, kk } => {
            assert(x == r && field_kk(op) == kk);
        },
        Instruction::Shr { x: r }
        | Instruction::Shl { x: r }
        | Instruction::Skp { x: r }
        | Instruction::Sknp { x: r }
        | Instruction::LdDtIntoVx { x: r }
        | Instruction::LdKIntoVx { x: r }
        | Instruction::LdVxIntoDt { x: r }
        | Instruction::LdVxIntoSt { x: r }
        | Instruction::AddVx { x: r }
        | Instruction::LdVxDigitIntoF { x: r }
        | Instruction::LdVxIntoBcd { x: r }
        | Instruction::LdV0ToVxIntoI { x: r }
        | Instruction::LdIIntoV0ToVx { x: r } => {
            assert(x == r);
        },
        Instruction::SeReg { x: r, y: q }
        | Instruction::Ld { x: r, y: q }
        | Instruction::Or { x: r, y: q }
        | Instruction::And { x: r, y: q }
        | Instruction::Xor { x: r, y: q }
        | Instruction::AddReg { x: r, y: q }
        | Instruction::Sub { x: r, y: q }
        | Instruction::Subn { x: r, y: q }
        | Instruction::SneReg { x: r, y: q } => {
            assert(x == r && y == q);
        },
        Instruction::Drw { x: r, y: q, n: c } => {
            assert(x == r && y == q && n == c);
        },
        Instruction::Unknown { .. } => {},
    }
}

/// The shifts and masks that pick the fields out of a word agree with the
/// arithmetic that defines them.
proof fn lemma_fields(op: u16)
    ensures
        (op >> 12) == family(op),
        ((op & 0x0F00) >> 8) == field_x(op),
        ((op & 0x00F0) >> 4) == field_y(op),
        (op & 0x000F) == field_n(op),
        (op & 0x00FF) == field_kk(op),
        (op & 0x0FFF) == field_addr(op),
{
    assert((op >> 12) == op / 0x1000) by (bit_vector);
    assert(((op & 0x0F00) >> 8) == (op / 0x100) % 0x10) by (bit_vector);
    assert(((op & 0x00F0) >> 4) == (op / 0x10) % 0x10) by (bit_vector);
    assert((op & 0x000F) == op % 0x10) by (bit_vector);
    assert((op & 0x00FF) == op % 0x100) by (bit_vector);
    assert((op & 0x0FFF) == op % 0x1000) by (bit_vector);
}

/// Decodes one instruction word.
pub fn decode(op: u16) -> (instr: Instruction)
    ensures
        instr == decoded(op),
        instr.wf(),
{
    proof {
        lemma_fields(op);
    }
    let x = ((op & 0x0F00) >> 8) as u8;
    let y = ((op & 0x00F0) >> 4) as u8;
    let n = (op & 0x000F) as u8;
    let kk = (op & 0x00FF) as u8;
    let addr = op & 0x0FFF;
    if op == 0x00E0 {
        return Instruction::Cls;
    }
    if op == 0x00EE {
        return Instruction::Ret;
    }
    match op >> 12 {
        0x0 => Instruction::Sys { addr },
        0x1 => Instruction::Jp { addr },
        0x2 => Instruction::Call { addr },
        0x3 => Instruction::Se { x, kk },
        0x4 => Instruction::Sne { x, kk },
        0x5 if n == 0 => Instruction::SeReg { x, y },
        0x6 => Instruction::Ldx { x, kk },
        0x7 => Instruction::AddByte { x, kk },
        0x8 => match n {
            0x0 => Instruction::Ld { x, y },
            0x1 => Instruction::Or { x, y },
            0x2 => Instruction::And { x, y },
            0x3 => Instruction::Xor { x, y },
            0x4 => Instruction::AddReg { x, y },
            0x5 => Instruction::Sub { x, y },
            0x6 => Instruction::Shr { x },
            0x7 => Instruction::Subn { x, y },
            0xE => Instruction::Shl { x },
            _ => Instruction::Unknown { op },
        },
        0x9 if n == 0 => Instruction::SneReg { x, y },
        0xA => Instruction::Ldi { addr },
        0xB => Instruction::JpV0 { addr },
        0xC => Instruction::Rnd { x, kk },
        0xD => Instruction::Drw { x, y, n },
        0xE => match kk {
            0x9E => Instruction::Skp { x },
            0xA1 => Instruction::Sknp { x },
            _ => Instruction::Unknown { op },
        },
        0xF => match kk {
            0x07 => Instruction::LdDtIntoVx { x },
            0x0A => Instruction::LdKIntoVx { x },
            0x15 => Instruction::LdVxIntoDt { x },
            0x18 => Instruction::LdVxIntoSt { x },
            0x1E => Instruction::AddVx { x },
            0x29 => Instruction::LdVxDigitIntoF { x },
            0x33 => Instruction::LdVxIntoBcd { x },
            0x55 => Instruction::LdV0ToVxIntoI { x },
            0x65 => Instruction::LdIIntoV0ToVx { x },
            _ => Instruction::Unknown { op },
        },
        _ => Instruction::Unknown { op },
    }
}

} // verus!
