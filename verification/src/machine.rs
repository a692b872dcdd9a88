//! The mathematical model of the CHIP-8 machine: its state as plain values
//! and the effect of every instruction as a function on that state. The
//! contracts of the CPU are stated over this model.

use crate::opcode::{decoded, Instruction};
use crate::ram::cell;
use crate::text::{hex_word, push_hex_word, push_upper_hex, upper_hex};
use vstd::prelude::*;
use vstd::string::StringExecFns;

verus! {

/// A condition that ends the run of a program.
#[derive(Clone, Copy, Debug, PartialEq, Eq)]
pub enum Fault {
    /// A call was made while all sixteen stack slots were occupied.
    StackOverflow,
    /// A return was made while the call stack was empty.
    StackUnderflow,
    /// The instruction word matches no known pattern.
    UnknownOpcode(u16),
    /// A key instruction named a key that the keypad does not have.
    InvalidKey(u8),
}

impl Fault {
    /// The message that describes the fault.
    pub open spec fn message(self) -> Seq<char> {
        match self {
            Fault::StackOverflow => "Call stack exceeded!"@,
            Fault::StackUnderflow => "Return without anything on the stack!"@,
            Fault::UnknownOpcode(op) => "Unknown opcode: 0x"@ + hex_word(op),
            Fault::InvalidKey(key) => "No such key: 0x"@ + upper_hex(key as nat),
        }
    }

    /// The message that describes the fault.
    pub fn to_string(&self) -> (text: String)
        ensures
            text@ == self.message(),
    {
        match self {
            Fault::StackOverflow => String::from_str("Call stack exceeded!"),
            Fault::StackUnderflow => String::from_str("Return without anything on the stack!"),
            Fault::UnknownOpcode(op) => {
                let mut text = String::from_str("Unknown opcode: 0x");
                push_hex_word(&mut text, *op);
                text
            },
            Fault::InvalidKey(key) => {
                let mut text = String::from_str("No such key: 0x");
                push_upper_hex(&mut text, *key as u16);
                text
            },
        }
    }
}

/// What the CPU is doing after a step.
#[derive(Clone, Copy, Debug, PartialEq, Eq)]
pub enum Status {
    /// The instruction was executed.
    Running,
    /// The instruction waits for a key and none is pressed: nothing changed,
    /// and the same instruction is fetched again by the next step.
    AwaitingKey,
}

/// The state of the machine.
#[verifier::ext_equal]
pub struct Machine {
    /// Program counter.
    pub pc: u16,
    /// Registers V0 to VF.
    pub v: Seq<u8>,
    /// Address register I.
    pub i: u16,
    /// Return addresses of the nested calls; 0 marks a free slot.
    pub stack: Seq<u16>,
    /// Delay timer.
    pub dt: u8,
    /// Sound timer.
    pub st: u8,
    /// The 4096 bytes of memory.
    pub mem: Seq<u8>,
}

/// The value `n` reduced to 16 bits.
pub open spec fn wrap16(n: int) -> u16 {
    (n % 0x10000) as u16
}

/// The value `n` reduced to 8 bits.
pub open spec fn wrap8(n: int) -> u8 {
    (n % 0x100) as u8
}

/// The big-endian word held by the two cells at `addr` and `addr + 1`.
pub open spec fn word_at(mem: Seq<u8>, addr: u16) -> u16 {
    (mem[cell(addr)] as int * 0x100 + mem[cell(wrap16(addr + 1))] as int) as u16
}

/// The least index at or after `from` at which `s` holds `x`, or the length
/// of `s` if there is none.
pub open spec fn first_index_of<T>(s: Seq<T>, x: T, from: int) -> int
    decreases s.len() - from,
{
    if from < 0 || from >= s.len() {
        s.len() as int
    } else if s[from] == x {
        from
    } else {
        first_index_of(s, x, from + 1)
    }
}

/// The index of the first free stack slot, or the number of slots if every
/// slot is occupied.
pub open spec fn first_free(stack: Seq<u16>) -> int {
    first_index_of(stack, 0u16, 0)
}

/// The index of the lowest key that is pressed, or the number of keys if
/// none is.
pub open spec fn first_pressed(keys: Seq<bool>) -> int {
    first_index_of(keys, true, 0)
}

/// The live entries of the stack form a prefix: no free slot lies below an
/// occupied one.
pub open spec fn packed(stack: Seq<u16>) -> bool {
    forall|j: int, k: int| 0 <= j < k < stack.len() && stack[j] == 0 ==> stack[k] == 0
}

/// What the search returns is the first match: it lies in range, the item
/// there is `x`, and no item before it is.
pub proof fn lemma_first_index_of<T>(s: Seq<T>, x: T, from: int)
    requires
        0 <= from <= s.len(),
    ensures
        from <= first_index_of(s, x, from) <= s.len(),
        first_index_of(s, x, from) < s.len() ==> s[first_index_of(s, x, from)] == x,
        forall|j: int| from <= j < first_index_of(s, x, from) ==> s[j] != x,
    decreases s.len() - from,
{
    if from < s.len() && s[from] != x {
        lemma_first_index_of(s, x, from + 1);
    }
}

/// An index with the properties of the first match is what the search
/// returns.
pub proof fn lemma_first_index_is<T>(s: Seq<T>, x: T, from: int, k: int)
    requires
        0 <= from <= k <= s.len(),
        k < s.len() ==> s[k] == x,
        forall|j: int| from <= j < k ==> s[j] != x,
    ensures
        first_index_of(s, x, from) == k,
    decreases k - from,
{
    if from < k {
        lemma_first_index_is(s, x, from + 1, k);
    }
}

impl Machine {
    /// The state has sixteen registers, sixteen stack slots and 4096 bytes
    /// of memory.
    pub open spec fn wf(self) -> bool {
        &&& self.v.len() == 16
        &&& self.stack.len() == 16
        &&& self.mem.len() == 0x1000
    }

    /// The state after power-on with the given memory.
    pub open spec fn boot(mem: Seq<u8>) -> Machine {
        Machine {
            pc: 0x200,
            v: Seq::new(16, |k: int| 0u8),
            i: 0,
            stack: Seq::new(16, |k: int| 0u16),
            dt: 0,
            st: 0,
            mem,
        }
    }

    /// The instruction word at the program counter.
    pub open spec fn fetch(self) -> u16 {
        word_at(self.mem, self.pc)
    }

    /// The program counter moved past one instruction.
    pub open spec fn advance(self) -> Machine {
        Machine { pc: wrap16(self.pc + 2), ..self }
    }

    /// The next instruction skipped if `cond` holds.
    pub open spec fn skip_if(self, cond: bool) -> Machine {
        if cond {
            self.advance()
        } else {
            self
        }
    }

    /// Register `x` set to `value`.
    pub open spec fn set_v(self, x: u8, value: u8) -> Machine {
        Machine { v: self.v.update(x as int, value), ..self }
    }

    /// VF set to `flag`, then register `x` set to `value`. Where `x` is 0xF
    /// the value is what stays.
    pub open spec fn set_flag_and_v(self, flag: u8, x: u8, value: u8) -> Machine {
        Machine { v: self.v.update(0xF, flag).update(x as int, value), ..self }
    }

    /// Both timers count down by one, stopping at zero.
    pub open spec fn tick(self) -> Machine {
        Machine {
            dt: if self.dt > 0 { (self.dt - 1) as u8 } else { 0 },
            st: if self.st > 0 { (self.st - 1) as u8 } else { 0 },
            ..self
        }
    }

    /// Number of nested calls that are live.
    pub open spec fn depth(self) -> int {
        first_free(self.stack)
    }

    /// `RET`: the program counter is restored from the slot below the first
    /// free one, which is freed. With no free slot that is the last slot. An
    /// empty stack is a fault.
    pub open spec fn ret(self) -> Result<Machine, Fault> {
        let k = first_free(self.stack);
        if k == 0 {
            Err(Fault::StackUnderflow)
        } else {
            Ok(Machine { pc: self.stack[k - 1], stack: self.stack.update(k - 1, 0), ..self })
        }
    }

    /// `CALL addr`: the program counter is stored in the first free slot and
    /// set to `addr`. A stack without a free slot is a fault.
    pub open spec fn call(self, addr: u16) -> Result<Machine, Fault> {
        let k = first_free(self.stack);
        if k >= self.stack.len() {
            Err(Fault::StackOverflow)
        } else {
            Ok(Machine { pc: addr, stack: self.stack.update(k, self.pc), ..self })
        }
    }

    /// `JP addr`.
    pub open spec fn jp(self, addr: u16) -> Machine {
        Machine { pc: addr, ..self }
    }

    /// `SE Vx, kk`.
    pub open spec fn se(self, x: u8, kk: u8) -> Machine {
        self.skip_if(self.v[x as int] == kk)
    }

    /// `SNE Vx, kk`.
    pub open spec fn sne(self, x: u8, kk: u8) -> Machine {
        self.skip_if(self.v[x as int] != kk)
    }

    /// `SE Vx, Vy`.
    pub open spec fn se_reg(self, x: u8, y: u8) -> Machine {
        self.skip_if(self.v[x as int] == self.v[y as int])
    }

    /// `SNE Vx, Vy`.
    pub open spec fn sne_reg(self, x: u8, y: u8) -> Machine {
        self.skip_if(self.v[x as int] != self.v[y as int])
    }

    /// `LD Vx, kk`.
    pub open spec fn ldx(self, x: u8, kk: u8) -> Machine {
        self.set_v(x, kk)
    }

    /// `ADD Vx, kk`: the sum wraps at 8 bits and VF is not touched.
    pub open spec fn add_byte(self, x: u8, kk: u8) -> Machine {
        self.set_v(x, wrap8(self.v[x as int] + kk))
    }

    /// `LD Vx, Vy`.
    pub open spec fn ld(self, x: u8, y: u8) -> Machine {
        self.set_v(x, self.v[y as int])
    }

    /// `OR Vx, Vy`.
    pub open spec fn or(self, x: u8, y: u8) -> Machine {
        self.set_v(x, self.v[x as int] | self.v[y as int])
    }

    /// `AND Vx, Vy`.
    pub open spec fn and(self, x: u8, y: u8) -> Machine {
        self.set_v(x, self.v[x as int] & self.v[y as int])
    }

    /// `XOR Vx, Vy`.
    pub open spec fn xor(self, x: u8, y: u8) -> Machine {
        self.set_v(x, self.v[x as int] ^ self.v[y as int])
    }

    /// `ADD Vx, Vy`: VF is 1 if the sum exceeds 255 and 0 otherwise; Vx
    /// receives the sum reduced to 8 bits.
    pub open spec fn add_reg(self, x: u8, y: u8) -> Machine {
        let a = self.v[x as int];
        let b = self.v[y as int];
        self.set_flag_and_v(if a + b > 0xFF { 1 } else { 0 }, x, wrap8(a + b))
    }

    /// `SUB Vx, Vy`: VF is 1 if `Vx > Vy` and 0 otherwise; Vx receives the
    /// difference reduced to 8 bits.
    pub open spec fn sub(self, x: u8, y: u8) -> Machine {
        let a = self.v[x as int];
        let b = self.v[y as int];
        self.set_flag_and_v(if a > b { 1 } else { 0 }, x, wrap8(a - b))
    }

    /// `SUBN Vx, Vy`: VF is 1 if `Vy > Vx` and 0 otherwise; Vx receives
    /// `Vy - Vx` reduced to 8 bits.
    pub open spec fn subn(self, x: u8, y: u8) -> Machine {
        let a = self.v[x as int];
        let b = self.v[y as int];
        self.set_flag_and_v(if b > a { 1 } else { 0 }, x, wrap8(b - a))
    }

    /// `SHR Vx`: VF is the lowest bit of Vx; Vx is halved.
    pub open spec fn shr(self, x: u8) -> Machine {
        let a = self.v[x as int];
        self.set_flag_and_v((a % 2) as u8, x, (a / 2) as u8)
    }

    /// `SHL Vx`: VF is the highest bit of Vx; Vx is doubled and reduced to 8
    /// bits.
    pub open spec fn shl(self, x: u8) -> Machine {
        let a = self.v[x as int];
        self.set_flag_and_v((a / 0x80) as u8, x, wrap8(a * 2))
    }

    /// `LD I, addr`.
    pub open spec fn ldi(self, addr: u16) -> Machine {
        Machine { i: addr, ..self }
    }

    /// `JP V0, addr`.
    pub open spec fn jp_v0(self, addr: u16) -> Machine {
        Machine { pc: wrap16(addr + self.v[0]), ..self }
    }

    /// `RND Vx, kk` with the byte that was drawn.
    pub open spec fn rnd(self, x: u8, kk: u8, random: u8) -> Machine {
        self.set_v(x, random & kk)
    }

    /// `SKP Vx` with the key states that were read. A register value that
    /// names no key is a fault.
    pub open spec fn skp(self, x: u8, keys: Seq<bool>) -> Result<Machine, Fault> {
        let key = self.v[x as int];
        if key >= keys.len() {
            Err(Fault::InvalidKey(key))
        } else {
            Ok(self.skip_if(keys[key as int]))
        }
    }

    /// `SKNP Vx` with the key states that were read. A register value that
    /// names no key is a fault.
    pub open spec fn sknp(self, x: u8, keys: Seq<bool>) -> Result<Machine, Fault> {
        let key = self.v[x as int];
        if key >= keys.len() {
            Err(Fault::InvalidKey(key))
        } else {
            Ok(self.skip_if(!keys[key as int]))
        }
    }

    /// `LD Vx, DT`.
    pub open spec fn ld_dt_into_vx(self, x: u8) -> Machine {
        self.set_v(x, self.dt)
    }

    /// `LD Vx, K` with the key states that were read: the lowest pressed key
    /// is stored in Vx, or nothing happens if no key is pressed.
    pub open spec fn ld_k_into_vx(self, x: u8, keys: Seq<bool>) -> (Machine, Status) {
        let key = first_pressed(keys);
        if key < keys.len() {
            (self.set_v(x, key as u8), Status::Running)
        } else {
            (self, Status::AwaitingKey)
        }
    }

    /// `LD DT, Vx`.
    pub open spec fn ld_vx_into_dt(self, x: u8) -> Machine {
        Machine { dt: self.v[x as int], ..self }
    }

    /// `LD ST, Vx`.
    pub open spec fn ld_vx_into_st(self, x: u8) -> Machine {
        Machine { st: self.v[x as int], ..self }
    }

    /// `ADD I, Vx`: the sum wraps at 16 bits.
    pub open spec fn add_vx(self, x: u8) -> Machine {
        Machine { i: wrap16(self.i + self.v[x as int]), ..self }
    }

    /// `LD F, Vx`: glyphs are five bytes each, starting at address 0.
    pub open spec fn ld_vx_digit_into_f(self, x: u8) -> Machine {
        Machine { i: (5 * self.v[x as int]) as u16, ..self }
    }

    /// `LD B, Vx`: the hundreds, tens and ones of Vx at I, I+1 and I+2.
    pub open spec fn ld_vx_into_bcd(self, x: u8) -> Machine {
        let value = self.v[x as int] as int;
        Machine {
            mem: self.mem.update(cell(self.i), (value / 100) as u8).update(
                cell(wrap16(self.i + 1)),
                ((value / 10) % 10) as u8,
            ).update(cell(wrap16(self.i + 2)), (value % 10) as u8),
            ..self
        }
    }

    /// `LD [I], Vx`: the cell that lies `k` cells after I, for `k <= x`,
    /// receives Vk; every other cell keeps its byte.
    pub open spec fn ld_v0_to_vx_into_i(self, x: u8) -> Machine {
        Machine {
            mem: Seq::new(
                self.mem.len(),
                |a: int|
                    if (a - self.i) % 0x1000 <= x {
                        self.v[(a - self.i) % 0x1000]
                    } else {
                        self.mem[a]
                    },
            ),
            ..self
        }
    }

    /// `LD Vx, [I]`: register Vk, for `k <= x`, receives the byte that lies
    /// `k` cells after I; every other register keeps its value.
    pub open spec fn ld_i_into_v0_to_vx(self, x: u8) -> Machine {
        Machine {
            v: Seq::new(
                self.v.len(),
                |k: int|
                    if k <= x {
                        self.mem[(self.i + k) % 0x1000]
                    } else {
                        self.v[k]
                    },
            ),
            ..self
        }
    }

    /// The state after one call to each of `targets` in turn, each nested in
    /// the one before.
    pub open spec fn calls(self, targets: Seq<u16>) -> Result<Machine, Fault>
        decreases targets.len(),
    {
        if targets.len() == 0 {
            Ok(self)
        } else {
            match self.calls(targets.drop_last()) {
                Ok(m) => m.call(targets.last()),
                Err(fault) => Err(fault),
            }
        }
    }

    /// The state after `n` returns in a row.
    pub open spec fn rets(self, n: nat) -> Result<Machine, Fault>
        decreases n,
    {
        if n == 0 {
            Ok(self)
        } else {
            match self.ret() {
                Ok(m) => m.rets((n - 1) as nat),
                Err(fault) => Err(fault),
            }
        }
    }

    /// The effect of one decoded instruction, given the key states and the
    /// random byte that the outside world supplies. A fault leaves the state
    /// as it was.
    pub open spec fn execute(self, instr: Instruction, keys: Seq<bool>, random: u8) -> (
        Machine,
        Result<Status, Fault>,
    ) {
        match instr {
            Instruction::Cls => (self, Ok(Status::Running)),
            Instruction::Ret => match self.ret() {
                Ok(m) => (m, Ok(Status::Running)),
                Err(fault) => (self, Err(fault)),
            },
            Instruction::Sys { addr } => (self, Ok(Status::Running)),
            Instruction::Jp { addr } => (self.jp(addr), Ok(Status::Running)),
            Instruction::Call { addr } => match self.call(addr) {
                Ok(m) => (m, Ok(Status::Running)),
                Err(fault) => (self, Err(fault)),
            },
            Instruction::Se { x, kk } => (self.se(x, kk), Ok(Status::Running)),
            Instruction::Sne { x, kk } => (self.sne(x, kk), Ok(Status::Running)),
            Instruction::SeReg { x, y } => (self.se_reg(x, y), Ok(Status::Running)),
            Instruction::Ldx { x, kk } => (self.ldx(x, kk), Ok(Status::Running)),
            Instruction::AddByte { x, kk } => (self.add_byte(x, kk), Ok(Status::Running)),
            Instruction::Ld { x, y } => (self.ld(x, y), Ok(Status::Running)),
            Instruction::Or { x, y } => (self.or(x, y), Ok(Status::Running)),
            Instruction::And { x, y } => (self.and(x, y), Ok(Status::Running)),
            Instruction::Xor { x, y } => (self.xor(x, y), Ok(Status::Running)),
            Instruction::AddReg { x, y } => (self.add_reg(x, y), Ok(Status::Running)),
            Instruction::Sub { x, y } => (self.sub(x, y), Ok(Status::Running)),
            Instruction::Shr { x } => (self.shr(x), Ok(Status::Running)),
            Instruction::Subn { x, y } => (self.subn(x, y), Ok(Status::Running)),
            Instruction::Shl { x } => (self.shl(x), Ok(Status::Running)),
            Instruction::SneReg { x, y } => (self.sne_reg(x, y), Ok(Status::Running)),
            Instruction::Ldi { addr } => (self.ldi(addr), Ok(Status::Running)),
            Instruction::JpV0 { addr } => (self.jp_v0(addr), Ok(Status::Running)),
            Instruction::Rnd { x, kk } => (self.rnd(x, kk, random), Ok(Status::Running)),
            Instruction::Drw { x, y, n } => (self, Ok(Status::Running)),
            Instruction::Skp { x } => match self.skp(x, keys) {
                Ok(m) => (m, Ok(Status::Running)),
                Err(fault) => (self, Err(fault)),
            },
            Instruction::Sknp { x } => match self.sknp(x, keys) {
                Ok(m) => (m, Ok(Status::Running)),
                Err(fault) => (self, Err(fault)),
            },
            Instruction::LdDtIntoVx { x } => (self.ld_dt_into_vx(x), Ok(Status::Running)),
            Instruction::LdKIntoVx { x } => {
                let (m, status) = self.ld_k_into_vx(x, keys);
                (m, Ok(status))
            },
            Instruction::LdVxIntoDt { x } => (self.ld_vx_into_dt(x), Ok(Status::Running)),
            Instruction::LdVxIntoSt { x } => (self.ld_vx_into_st(x), Ok(Status::Running)),
            Instruction::AddVx { x } => (self.add_vx(x), Ok(Status::Running)),
            Instruction::LdVxDigitIntoF { x } => (self.ld_vx_digit_into_f(x), Ok(Status::Running)),
            Instruction::LdVxIntoBcd { x } => (self.ld_vx_into_bcd(x), Ok(Status::Running)),
            Instruction::LdV0ToVxIntoI { x } => (self.ld_v0_to_vx_into_i(x), Ok(Status::Running)),
            Instruction::LdIIntoV0ToVx { x } => (self.ld_i_into_v0_to_vx(x), Ok(Status::Running)),
            Instruction::Unknown { op } => (self, Err(Fault::UnknownOpcode(op))),
        }
    }

    /// One step: the word at the program counter is fetched, the program
    /// counter moves past it, the instruction is executed and the timers
    /// count down. A fault stops the step after the fetch. An instruction
    /// that waits for a key leaves the whole state as it was before the
    /// step.
    pub open spec fn step(self, keys: Seq<bool>, random: u8) -> (Machine, Result<Status, Fault>) {
        let (m, outcome) = self.advance().execute(decoded(self.fetch()), keys, random);
        match outcome {
            Ok(Status::Running) => (m.tick(), outcome),
            Ok(Status::AwaitingKey) => (self, outcome),
            Err(_) => (m, outcome),
        }
    }
}

/// On a packed stack with a free slot, a call with a program counter other
/// than 0 occupies one more slot and keeps the stack packed, and a return
/// right after it gives back the state before the call.
pub proof fn lemma_call_then_ret(m: Machine, addr: u16)
    requires
        m.wf(),
        packed(m.stack),
        m.pc != 0,
        m.depth() < 16,
    ensures
        m.call(addr) is Ok,
        m.call(addr)->Ok_0.wf(),
        m.call(addr)->Ok_0.pc == addr,
        packed(m.call(addr)->Ok_0.stack),
        m.call(addr)->Ok_0.depth() == m.depth() + 1,
        m.call(addr)->Ok_0.ret() == Ok::<Machine, Fault>(m),
{
    let d = m.depth();
    lemma_first_index_of(m.stack, 0u16, 0);
    let called = m.call(addr)->Ok_0;
    lemma_first_index_is(called.stack, 0u16, 0, d + 1);
    assert(called.stack.update(d, 0) =~= m.stack);
}

/// Nested calls that fit on the stack all succeed. The stack stays packed
/// and grows by one slot per call.
pub proof fn lemma_calls_succeed(m: Machine, targets: Seq<u16>)
    requires
        m.wf(),
        packed(m.stack),
        m.pc != 0,
        forall|j: int| 0 <= j < targets.len() - 1 ==> targets[j] != 0,
        m.depth() + targets.len() <= 16,
    ensures
        m.calls(targets) is Ok,
        m.calls(targets)->Ok_0.wf(),
        packed(m.calls(targets)->Ok_0.stack),
        m.calls(targets)->Ok_0.depth() == m.depth() + targets.len(),
        m.calls(targets)->Ok_0.pc == if targets.len() == 0 {
            m.pc
        } else {
            targets.last()
        },
    decreases targets.len(),
{
    if targets.len() > 0 {
        lemma_calls_succeed(m, targets.drop_last());
        lemma_call_then_ret(m.calls(targets.drop_last())->Ok_0, targets.last());
    }
}

/// Calls and returns pair up: after nested calls to `targets`, `n` returns
/// lead back to the very state that the machine was in when only the first
/// `targets.len() - n` of the calls had been made. So each return restores
/// the program counter that its call had stored, the last call first, and as
/// many returns as calls restore the state from before the first call.
///
/// The stack must be packed and have room for the calls, and no address that
/// a call stores may be 0: that is the mark of a free slot.
pub proof fn lemma_calls_then_rets(m: Machine, targets: Seq<u16>, n: nat)
    requires
        m.wf(),
        packed(m.stack),
        m.pc != 0,
        forall|j: int| 0 <= j < targets.len() - 1 ==> targets[j] != 0,
        m.depth() + targets.len() <= 16,
        n <= targets.len(),
    ensures
        m.calls(targets) is Ok,
        m.calls(targets)->Ok_0.rets(n) == m.calls(targets.take(targets.len() - n)),
        m.calls(targets)->Ok_0.rets(targets.len()) == Ok::<Machine, Fault>(m),
    decreases targets.len(),
{
    lemma_calls_succeed(m, targets);
    if n == 0 {
        assert(targets.take(targets.len() - n) =~= targets);
    } else {
        let before = targets.drop_last();
        lemma_calls_succeed(m, before);
        lemma_call_then_ret(m.calls(before)->Ok_0, targets.last());
        lemma_calls_then_rets(m, before, (n - 1) as nat);
        assert(before.take(before.len() - (n - 1)) =~= targets.take(targets.len() - n));
    }
    if targets.len() > 0 {
        let before = targets.drop_last();
        lemma_calls_succeed(m, before);
        lemma_call_then_ret(m.calls(before)->Ok_0, targets.last());
        lemma_calls_then_rets(m, before, before.len());
    }
}

/// One call more than the stack has room for is a fault: from an empty
/// stack, the seventeenth nested call overflows.
pub proof fn lemma_calls_overflow(m: Machine, targets: Seq<u16>)
    requires
        m.wf(),
        packed(m.stack),
        m.pc != 0,
        forall|j: int| 0 <= j < targets.len() - 1 ==> targets[j] != 0,
        m.depth() + targets.len() > 16,
    ensures
        m.calls(targets) == Err::<Machine, Fault>(Fault::StackOverflow),
    decreases targets.len(),
{
    lemma_first_index_of(m.stack, 0u16, 0);
    let before = targets.drop_last();
    if m.depth() + before.len() > 16 {
        lemma_calls_overflow(m, before);
    } else {
        lemma_calls_succeed(m, before);
    }
}

/// A return on an empty stack is a fault.
pub proof fn lemma_ret_on_empty_stack(m: Machine)
    requires
        m.wf(),
        m.stack[0] == 0,
    ensures
        m.ret() == Err::<Machine, Fault>(Fault::StackUnderflow),
{
}

/// Block transfers pair up: storing V0 to Vx at I and reading them back
/// changes nothing, and reading them back into any registers `w` restores V0
/// to Vx and leaves the registers above Vx as they were in `w`. This holds
/// also where the block wraps around the end of memory.
pub proof fn lemma_store_then_load(m: Machine, w: Seq<u8>, x: u8)
    requires
        m.wf(),
        w.len() == 16,
        x < 16,
    ensures
        m.ld_v0_to_vx_into_i(x).ld_i_into_v0_to_vx(x) == m.ld_v0_to_vx_into_i(x),
        (Machine { v: w, ..m.ld_v0_to_vx_into_i(x) }).ld_i_into_v0_to_vx(x).v == Seq::new(
            16,
            |k: int|
                if k <= x {
                    m.v[k]
                } else {
                    w[k]
                },
        ),
{
    let stored = m.ld_v0_to_vx_into_i(x);
    assert forall|k: int| 0 <= k <= x implies stored.mem[(m.i + k) % 0x1000] == m.v[k] by {
        let a = (m.i + k) % 0x1000;
        assert((a - m.i) % 0x1000 == k);
    }
    assert(stored.ld_i_into_v0_to_vx(x).v =~= stored.v);
    assert((Machine { v: w, ..stored }).ld_i_into_v0_to_vx(x).v =~= Seq::new(
        16,
        |k: int|
            if k <= x {
                m.v[k]
            } else {
                w[k]
            },
    ));
}

} // verus!
