//! The CPU of the CHIP-8: the register file, the program counter, the call
//! stack and the timers, and the execution of instructions on them.

use crate::input::Input;
use crate::machine::{first_free, lemma_first_index_is, Fault, Machine, Status};
use crate::opcode::{decode, decoded, Instruction};
use crate::ram::Memory;
use crate::random::{random_byte, thread_generator};
use crate::text::{
    decimal, digit, digit_text, hex_word, push_decimal, push_hex_word, push_upper_hex, upper_hex,
};
use vstd::prelude::*;
use vstd::string::StringExecFns;

verus! {

/// Emulated CPU of the CHIP-8.
pub struct Cpu<'a, M: Memory, I: Input> {
    /// Main RAM (4 kilobytes).
    pub ram: M,
    /// Program counter (PC).
    pub pc: u16,
    /// Registers V0 to VF.
    pub v: [u8; 16],
    /// Address register I.
    pub i: u16,
    /// Stack. It only contains return addresses for CALL opcodes and allows
    /// for 16 levels of nested calls. A slot that holds 0 is free.
    pub stack: [u16; 16],
    /// Delay timer (DT). Counts down while its value is above 0.
    pub dt: u8,
    /// Sound timer (ST). Counts down while its value is above 0.
    pub st: u8,
    /// Random number generator.
    pub rng: rand::ThreadRng,
    /// Input device.
    pub input: &'a I,
}

impl<'a, M: Memory, I: Input> View for Cpu<'a, M, I> {
    type V = Machine;

    open spec fn view(&self) -> Machine {
        Machine {
            pc: self.pc,
            v: self.v@,
            i: self.i,
            stack: self.stack@,
            dt: self.dt,
            st: self.st,
            mem: self.ram.bytes(),
        }
    }
}

/// The entry of register `k` in a dump of the state: its name and its value,
/// four registers to a line.
pub open spec fn register_text(v: Seq<u8>, k: int) -> Seq<char> {
    "V"@ + seq![digit(k)] + ": "@ + upper_hex(v[k] as nat) + if k % 4 == 3 {
        "\r\n"@
    } else {
        ", "@
    }
}

/// The entries of the registers below `n`.
pub open spec fn registers_text(v: Seq<u8>, n: int) -> Seq<char>
    decreases n,
{
    if n <= 0 {
        Seq::empty()
    } else {
        registers_text(v, n - 1) + register_text(v, n - 1)
    }
}

/// The line of stack slot `k` in a dump of the state.
pub open spec fn slot_text(stack: Seq<u16>, k: int) -> Seq<char> {
    ">> "@ + decimal(k as nat) + ": 0x"@ + hex_word(stack[k]) + "\r\n"@
}

/// The lines of the stack slots below `n`.
pub open spec fn slots_text(stack: Seq<u16>, n: int) -> Seq<char>
    decreases n,
{
    if n <= 0 {
        Seq::empty()
    } else {
        slots_text(stack, n - 1) + slot_text(stack, n - 1)
    }
}

/// The dump of a state: the program counter, the registers, the occupied
/// stack slots up to the first free one, and I and the timers.
pub open spec fn dump(m: Machine) -> Seq<char> {
    "CHIP8 CPU @ 0x"@ + hex_word(m.pc) + "\r\n"@ + registers_text(m.v, 16) + "\r\nSTACK:\r\n"@
        + slots_text(m.stack, first_free(m.stack)) + "\r\nI: "@ + upper_hex(m.i as nat)
        + "\r\nST: "@ + upper_hex(m.st as nat) + "\r\nDT: "@ + upper_hex(m.dt as nat)
}

/// Finds the first free slot of the stack.
fn first_free_slot(stack: &[u16; 16]) -> (k: usize)
    ensures
        k == first_free(stack@),
        k <= 16,
{
    let mut k: usize = 0;
    while k < 16 && stack[k] != 0
        invariant
            k <= 16,
            forall|j: int| 0 <= j < k ==> stack@[j] != 0,
        decreases 16 - k,
    {
        k = k + 1;
    }
    proof {
        lemma_first_index_is(stack@, 0u16, 0, k as int);
    }
    k
}

impl<'a, M: Memory, I: Input> Cpu<'a, M, I> {
    /// A CPU in its power-on state: the program counter at 0x200, everything
    /// else zero, on the given memory and input device.
    pub fn new(ram: M, input: &'a I) -> (cpu: Cpu<'a, M, I>)
        ensures
            cpu@ == Machine::boot(ram.bytes()),
            cpu.ram == ram,
            cpu.input == input,
    {
        let rng = thread_generator();
        Cpu { ram, pc: 0x200, v: [0; 16], i: 0, stack: [0; 16], dt: 0, st: 0, rng, input }
    }

    /// The state of a CPU always has sixteen registers, sixteen stack slots
    /// and 4096 bytes of memory.
    pub proof fn lemma_state_is_well_formed(&self)
        ensures
            self@.wf(),
    {
        self.ram.lemma_size();
    }

    /// Fetches the instruction word at the program counter, high byte
    /// first, and moves the program counter past it.
    pub fn next_opcode(&mut self) -> (op: u16)
        ensures
            op == old(self)@.fetch(),
            final(self)@ == old(self)@.advance(),
    {
        let hi = self.ram.lb(self.pc) as u16;
        let low = self.ram.lb(self.pc.wrapping_add(1)) as u16;
        self.pc = self.pc.wrapping_add(2);
        assert((hi << 8) | low == hi * 0x100 + low) by (bit_vector)
            requires
                hi < 0x100,
                low < 0x100,
        ;
        (hi << 8) | low
    }

    /// Lets both timers count down by one, unless they are at zero.
    pub fn update_timers(&mut self)
        ensures
            final(self)@ == old(self)@.tick(),
    {
        if self.dt > 0 {
            self.dt = self.dt - 1;
        }
        if self.st > 0 {
            self.st = self.st - 1;
        }
    }

    /// Clear the display. The display is not wired up: nothing changes.
    pub fn cls(&mut self)
        ensures
            final(self)@ == old(self)@,
    {
    }

    /// Return from a subroutine. The program counter is set to the address
    /// on top of the stack, which is removed from it.
    pub fn ret(&mut self) -> (res: Result<(), Fault>)
        ensures
            match old(self)@.ret() {
                Ok(m) => res is Ok && final(self)@ == m,
                Err(fault) => res == Err::<(), Fault>(fault) && final(self)@ == old(self)@,
            },
    {
        let k = first_free_slot(&self.stack);
        if k == 0 {
            return Err(Fault::StackUnderflow);
        }
        self.pc = self.stack[k - 1];
        self.stack[k - 1] = 0;
        Ok(())
    }

    /// Jump to a machine code routine at `addr`. Ignored: nothing changes.
    pub fn sys(&mut self, addr: u16)
        ensures
            final(self)@ == old(self)@,
    {
    }

    /// Jump to location `addr`.
    pub fn jp(&mut self, addr: u16)
        ensures
            final(self)@ == old(self)@.jp(addr),
    {
        self.pc = addr;
    }

    /// Call subroutine at `addr`. The current program counter is put on top
    /// of the stack and the program counter is then set to `addr`.
    pub fn call(&mut self, addr: u16) -> (res: Result<(), Fault>)
        ensures
            match old(self)@.call(addr) {
                Ok(m) => res is Ok && final(self)@ == m,
                Err(fault) => res == Err::<(), Fault>(fault) && final(self)@ == old(self)@,
            },
    {
        let k = first_free_slot(&self.stack);
        if k >= 16 {
            return Err(Fault::StackOverflow);
        }
        self.stack[k] = self.pc;
        self.pc = addr;
        Ok(())
    }
    /// Skip next instruction if Vreg == val.
    pub fn se(&mut self, reg: u8, val: u8)
        requires
            reg < 16,
        ensures
            final(self)@ == old(self)@.se(reg, val),
    {
        if self.v[reg as usize] == val {
            self.pc = self.pc.wrapping_add(2);
        }
    }

    /// Skip next instruction if Vreg != val.
    pub fn sne(&mut self, reg: u8, val: u8)
        requires
            reg < 16,
        ensures
            final(self)@ == old(self)@.sne(reg, val),
    {
        if self.v[reg as usize] != val {
            self.pc = self.pc.wrapping_add(2);
        }
    }

    /// Skip next instruction if Vreg1 == Vreg2.
    pub fn se_reg(&mut self, reg1: u8, reg2: u8)
        requires
            reg1 < 16,
            reg2 < 16,
        ensures
            final(self)@ == old(self)@.se_reg(reg1, reg2),
    {
        if self.v[reg1 as usize] == self.v[reg2 as usize] {
            self.pc = self.pc.wrapping_add(2);
        }
    }

    /// Set Vreg = val.
    pub fn ldx(&mut self, reg: u8, val: u8)
        requires
            reg < 16,
        ensures
            final(self)@ == old(self)@.ldx(reg, val),
    {
        self.v[reg as usize] = val;
    }

    /// Set Vreg = Vreg + byte. The sum wraps at 8 bits.
    pub fn add_byte(&mut self, reg: u8, byte: u8)
        requires
            reg < 16,
        ensures
            final(self)@ == old(self)@.add_byte(reg, byte),
    {
        self.v[reg as usize] = self.v[reg as usize].wrapping_add(byte);
    }

    /// Set Vreg1 = Vreg2.
    pub fn ld(&mut self, reg1: u8, reg2: u8)
        requires
            reg1 < 16,
            reg2 < 16,
        ensures
            final(self)@ == old(self)@.ld(reg1, reg2),
    {
        self.v[reg1 as usize] = self.v[reg2 as usize];
    }

    /// Set Vreg1 = Vreg1 | Vreg2.
    pub fn or(&mut self, reg1: u8, reg2: u8)
        requires
            reg1 < 16,
            reg2 < 16,
        ensures
            final(self)@ == old(self)@.or(reg1, reg2),
    {
        self.v[reg1 as usize] = self.v[reg1 as usize] | self.v[reg2 as usize];
    }

    /// Set Vreg1 = Vreg1 & Vreg2.
    pub fn and(&mut self, reg1: u8, reg2: u8)
        requires
            reg1 < 16,
            reg2 < 16,
        ensures
            final(self)@ == old(self)@.and(reg1, reg2),
    {
        self.v[reg1 as usize] = self.v[reg1 as usize] & self.v[reg2 as usize];
    }

    /// Set Vreg1 = Vreg1 ^ Vreg2.
    pub fn xor(&mut self, reg1: u8, reg2: u8)
        requires
            reg1 < 16,
            reg2 < 16,
        ensures
            final(self)@ == old(self)@.xor(reg1, reg2),
    {
        self.v[reg1 as usize] = self.v[reg1 as usize] ^ self.v[reg2 as usize];
    }

    /// Set Vreg1 = Vreg1 + Vreg2, set VF = carry. If the sum is greater than
    /// 8 bits, VF is set to 1, otherwise 0. Only the lowest 8 bits of the sum
    /// are kept, and stored in Vreg1.
    pub fn add_reg(&mut self, reg1: u8, reg2: u8)
        requires
            reg1 < 16,
            reg2 < 16,
        ensures
            final(self)@ == old(self)@.add_reg(reg1, reg2),
            reg1 != 0xF ==> (final(self).v[0xF] == 1 <==> old(self).v[reg1 as int] + old(
                self,
            ).v[reg2 as int] > 255),
            final(self).v[0xF] == 1 || final(self).v[0xF] == 0 || reg1 == 0xF,
            final(self).v[reg1 as int] == (old(self).v[reg1 as int] + old(self).v[reg2 as int])
                % 256,
    {
        let v1 = self.v[reg1 as usize];
        let v2 = self.v[reg2 as usize];
        self.v[0xF] = if (v1 as u16) + (v2 as u16) > 0xFF { 1 } else { 0 };
        self.v[reg1 as usize] = v1.wrapping_add(v2);
    }

    /// Set Vreg1 = Vreg1 - Vreg2, set VF = NOT borrow. If Vreg1 > Vreg2, then
    /// VF is set to 1, otherwise 0. Then Vreg2 is subtracted from Vreg1, and
    /// the result, wrapped to 8 bits, is stored in Vreg1.
    pub fn sub(&mut self, reg1: u8, reg2: u8)
        requires
            reg1 < 16,
            reg2 < 16,
        ensures
            final(self)@ == old(self)@.sub(reg1, reg2),
            reg1 != 0xF ==> (final(self).v[0xF] == 1 <==> old(self).v[reg1 as int] > old(
                self,
            ).v[reg2 as int]),
            final(self).v[0xF] == 1 || final(self).v[0xF] == 0 || reg1 == 0xF,
            final(self).v[reg1 as int] == (old(self).v[reg1 as int] - old(self).v[reg2 as int])
                % 256,
    {
        let v1 = self.v[reg1 as usize];
        let v2 = self.v[reg2 as usize];
        self.v[0xF] = if v1 > v2 { 1 } else { 0 };
        self.v[reg1 as usize] = v1.wrapping_sub(v2);
    }

    /// Set Vreg = Vreg SHR 1. If the least-significant bit of Vreg is 1, then
    /// VF is set to 1, otherwise 0. Then Vreg is divided by 2.
    pub fn shr(&mut self, reg: u8)
        requires
            reg < 16,
        ensures
            final(self)@ == old(self)@.shr(reg),
            reg != 0xF ==> final(self).v[0xF] == old(self).v[reg as int] % 2,
            final(self).v[reg as int] == old(self).v[reg as int] / 2,
    {
        let val = self.v[reg as usize];
        assert(0b1 & val == val % 2) by (bit_vector);
        assert(val >> 1 == val / 2) by (bit_vector);
        self.v[0xF] = if 0b1 & val == 1 { 1 } else { 0 };
        self.v[reg as usize] = val >> 1;
    }

    /// Set Vreg1 = Vreg2 - Vreg1, set VF = NOT borrow. If Vreg2 > Vreg1, then
    /// VF is set to 1, otherwise 0. Then Vreg1 is subtracted from Vreg2, and
    /// the result, wrapped to 8 bits, is stored in Vreg1.
    pub fn subn(&mut self, reg1: u8, reg2: u8)
        requires
            reg1 < 16,
            reg2 < 16,
        ensures
            final(self)@ == old(self)@.subn(reg1, reg2),
            reg1 != 0xF ==> (final(self).v[0xF] == 1 <==> old(self).v[reg2 as int] > old(
                self,
            ).v[reg1 as int]),
            final(self).v[0xF] == 1 || final(self).v[0xF] == 0 || reg1 == 0xF,
            final(self).v[reg1 as int] == (old(self).v[reg2 as int] - old(self).v[reg1 as int])
                % 256,
    {
        let v1 = self.v[reg1 as usize];
        let v2 = self.v[reg2 as usize];
        self.v[0xF] = if v2 > v1 { 1 } else { 0 };
        self.v[reg1 as usize] = v2.wrapping_sub(v1);
    }

    /// Set Vreg = Vreg SHL 1. If the most-significant bit of Vreg is 1, then
    /// VF is set to 1, otherwise to 0. Then Vreg is multiplied by 2, keeping
    /// the lowest 8 bits.
    pub fn shl(&mut self, reg: u8)
        requires
            reg < 16,
        ensures
            final(self)@ == old(self)@.shl(reg),
            reg != 0xF ==> final(self).v[0xF] == old(self).v[reg as int] / 128,
            final(self).v[reg as int] == (old(self).v[reg as int] * 2) % 256,
    {
        let val = self.v[reg as usize];
        assert((0b10000000 & val) >> 7 == val / 128) by (bit_vector);
        assert(val << 1 == (val * 2) % 256) by (bit_vector);
        self.v[0xF] = if (0b10000000 & val) >> 7 == 1 { 1 } else { 0 };
        self.v[reg as usize] = val << 1;
    }

    /// Skip next instruction if Vreg1 != Vreg2.
    pub fn sne_reg(&mut self, reg1: u8, reg2: u8)
        requires
            reg1 < 16,
            reg2 < 16,
        ensures
            final(self)@ == old(self)@.sne_reg(reg1, reg2),
    {
        if self.v[reg1 as usize] != self.v[reg2 as usize] {
            self.pc = self.pc.wrapping_add(2);
        }
    }

    /// Set I = val.
    pub fn ldi(&mut self, val: u16)
        ensures
            final(self)@ == old(self)@.ldi(val),
    {
        self.i = val;
    }

    /// Jump to location addr + V0.
    pub fn jp_v0(&mut self, addr: u16)
        ensures
            final(self)@ == old(self)@.jp_v0(addr),
    {
        self.pc = addr.wrapping_add(self.v[0] as u16);
    }

    /// Set Vreg = random byte & byte. The random byte is drawn from the
    /// generator of the CPU.
    pub fn rnd(&mut self, reg: u8, byte: u8)
        requires
            reg < 16,
        ensures
            exists|random: u8| final(self)@ == #[trigger] old(self)@.rnd(reg, byte, random),
    {
        let random = random_byte(&mut self.rng);
        self.rnd_with(reg, byte, random);
        assert(self@ == old(self)@.rnd(reg, byte, random));
    }

    /// Set Vreg = random & byte, for a random byte that was drawn already.
    pub fn rnd_with(&mut self, reg: u8, byte: u8, random: u8)
        requires
            reg < 16,
        ensures
            final(self)@ == old(self)@.rnd(reg, byte, random),
    {
        self.v[reg as usize] = random & byte;
    }

    /// Display n-byte sprite starting at memory location I at (Vx, Vy), set
    /// VF = collision. The operands are two register numbers and the number
    /// of sprite rows, a nibble. The display is not wired up: nothing
    /// changes.
    pub fn drw(&mut self, xreg: u8, yreg: u8, bytes: u8)
        requires
            xreg < 16,
            yreg < 16,
            bytes < 16,
        ensures
            final(self)@ == old(self)@,
    {
    }

    /// Skip next instruction if key with the value of Vreg is pressed. The
    /// input device is polled once.
    pub fn skp(&mut self, reg: u8) -> (res: Result<(), Fault>)
        requires
            reg < 16,
        ensures
            exists|keys: Seq<bool>|
                keys.len() == 16 && match #[trigger] old(self)@.skp(reg, keys) {
                    Ok(m) => res is Ok && final(self)@ == m,
                    Err(fault) => res == Err::<(), Fault>(fault) && final(self)@ == old(self)@,
                },
    {
        let state = self.input.get_key_states();
        self.skp_with(reg, &state)
    }

    /// Skip next instruction if the key with the value of Vreg is pressed in
    /// the key states that were read already.
    pub fn skp_with(&mut self, reg: u8, state: &[bool; 16]) -> (res: Result<(), Fault>)
        requires
            reg < 16,
        ensures
            match old(self)@.skp(reg, state@) {
                Ok(m) => res is Ok && final(self)@ == m,
                Err(fault) => res == Err::<(), Fault>(fault) && final(self)@ == old(self)@,
            },
    {
        let key = self.v[reg as usize];
        if key >= 16 {
            return Err(Fault::InvalidKey(key));
        }
        if state[key as usize] {
            self.pc = self.pc.wrapping_add(2);
        }
        Ok(())
    }

    /// Skip next instruction if key with the value of Vreg is not pressed.
    /// The input device is polled once.
    pub fn sknp(&mut self, reg: u8) -> (res: Result<(), Fault>)
        requires
            reg < 16,
        ensures
            exists|keys: Seq<bool>|
                keys.len() == 16 && match #[trigger] old(self)@.sknp(reg, keys) {
                    Ok(m) => res is Ok && final(self)@ == m,
                    Err(fault) => res == Err::<(), Fault>(fault) && final(self)@ == old(self)@,
                },
    {
        let state = self.input.get_key_states();
        self.sknp_with(reg, &state)
    }

    /// Skip next instruction if the key with the value of Vreg is not
    /// pressed in the key states that were read already.
    pub fn sknp_with(&mut self, reg: u8, state: &[bool; 16]) -> (res: Result<(), Fault>)
        requires
            reg < 16,
        ensures
            match old(self)@.sknp(reg, state@) {
                Ok(m) => res is Ok && final(self)@ == m,
                Err(fault) => res == Err::<(), Fault>(fault) && final(self)@ == old(self)@,
            },
    {
        let key = self.v[reg as usize];
        if key >= 16 {
            return Err(Fault::InvalidKey(key));
        }
        if !state[key as usize] {
            self.pc = self.pc.wrapping_add(2);
        }
        Ok(())
    }

    /// Set Vreg = delay timer value.
    pub fn ld_dt_into_vx(&mut self, reg: u8)
        requires
            reg < 16,
        ensures
            final(self)@ == old(self)@.ld_dt_into_vx(reg),
    {
        self.v[reg as usize] = self.dt;
    }

    /// Wait for a key press, store the value of the key in Vreg. The input
    /// device is polled once: if no key is pressed, nothing changes and the
    /// result says that the CPU is still waiting.
    pub fn ld_k_into_vx(&mut self, reg: u8) -> (status: Status)
        requires
            reg < 16,
        ensures
            exists|keys: Seq<bool>|
                keys.len() == 16 && (final(self)@, status) == #[trigger] old(self)@.ld_k_into_vx(
                    reg,
                    keys,
                ),
    {
        let state = self.input.get_key_states();
        self.ld_k_into_vx_with(reg, &state)
    }

    /// The key wait on key states that were read already: the lowest pressed
    /// key is stored in Vreg, or nothing changes if no key is pressed.
    pub fn ld_k_into_vx_with(&mut self, reg: u8, state: &[bool; 16]) -> (status: Status)
        requires
            reg < 16,
        ensures
            (final(self)@, status) == old(self)@.ld_k_into_vx(reg, state@),
    {
        let mut index: u8 = 0;
        while index < 16 && !state[index as usize]
            invariant
                index <= 16,
                forall|j: int| 0 <= j < index ==> state@[j] != true,
            decreases 16 - index,
        {
            index = index + 1;
        }
        proof {
            lemma_first_index_is(state@, true, 0, index as int);
        }
        if index < 16 {
            self.v[reg as usize] = index;
            Status::Running
        } else {
            Status::AwaitingKey
        }
    }

    /// Set delay timer = Vreg.
    pub fn ld_vx_into_dt(&mut self, reg: u8)
        requires
            reg < 16,
        ensures
            final(self)@ == old(self)@.ld_vx_into_dt(reg),
    {
        self.dt = self.v[reg as usize];
    }

    /// Set sound timer = Vreg.
    pub fn ld_vx_into_st(&mut self, reg: u8)
        requires
            reg < 16,
        ensures
            final(self)@ == old(self)@.ld_vx_into_st(reg),
    {
        self.st = self.v[reg as usize];
    }

    /// Set I = I + Vreg. The sum wraps at 16 bits.
    pub fn add_vx(&mut self, reg: u8)
        requires
            reg < 16,
        ensures
            final(self)@ == old(self)@.add_vx(reg),
    {
        self.i = self.i.wrapping_add(self.v[reg as usize] as u16);
    }

    /// Set I = location of sprite for digit Vreg: five bytes per digit,
    /// starting from address 0.
    pub fn ld_vx_digit_into_f(&mut self, reg: u8)
        requires
            reg < 16,
        ensures
            final(self)@ == old(self)@.ld_vx_digit_into_f(reg),
    {
        self.i = (self.v[reg as usize] as u16) * 5;
    }

    /// Store BCD representation of Vreg in memory locations I, I+1, and I+2:
    /// the hundreds digit at I, the tens digit at I+1 and the ones digit at
    /// I+2.
    pub fn ld_vx_into_bcd(&mut self, reg: u8)
        requires
            reg < 16,
        ensures
            final(self)@ == old(self)@.ld_vx_into_bcd(reg),
    {
        let value = self.v[reg as usize];
        let addr = self.i;
        self.ram.sb(addr, value / 100);
        self.ram.sb(addr.wrapping_add(1), (value / 10) % 10);
        self.ram.sb(addr.wrapping_add(2), value % 10);
    }

    /// Store registers V0 through Vreg in memory starting at location I.
    /// I itself is not changed.
    pub fn ld_v0_to_vx_into_i(&mut self, reg: u8)
        requires
            reg < 16,
        ensures
            final(self)@ == old(self)@.ld_v0_to_vx_into_i(reg),
    {
        let ghost pre = self@;
        proof {
            self.ram.lemma_size();
        }
        let mut addr = self.i;
        let mut k: u8 = 0;
        while k <= reg
            invariant
                reg < 16,
                k <= reg + 1,
                addr as int == (pre.i + k) % 0x10000,
                pre.wf(),
                self@ == (Machine { mem: self.ram.bytes(), ..pre }),
                self.ram.bytes().len() == 0x1000,
                forall|a: int|
                    0 <= a < 0x1000 ==> self.ram.bytes()[a] == if (a - pre.i) % 0x1000 < k {
                        pre.v[(a - pre.i) % 0x1000]
                    } else {
                        pre.mem[a]
                    },
            decreases reg + 1 - k,
        {
            self.ram.sb(addr, self.v[k as usize]);
            addr = addr.wrapping_add(1);
            k = k + 1;
        }
    }

    /// Read registers V0 through Vreg from memory starting at location I.
    /// I itself is not changed.
    pub fn ld_i_into_v0_to_vx(&mut self, reg: u8)
        requires
            reg < 16,
        ensures
            final(self)@ == old(self)@.ld_i_into_v0_to_vx(reg),
    {
        let ghost pre = self@;
        proof {
            self.ram.lemma_size();
        }
        let mut addr = self.i;
        let mut k: u8 = 0;
        while k <= reg
            invariant
                reg < 16,
                k <= reg + 1,
                addr as int == (pre.i + k) % 0x10000,
                pre.wf(),
                self@ == (Machine { v: self.v@, ..pre }),
                forall|j: int|
                    0 <= j < 16 ==> self.v@[j] == if j < k {
                        pre.mem[(pre.i + j) % 0x1000]
                    } else {
                        pre.v[j]
                    },
            decreases reg + 1 - k,
        {
            let byte = self.ram.lb(addr);
            self.v[k as usize] = byte;
            addr = addr.wrapping_add(1);
            k = k + 1;
        }
    }
    /// Handler for unknown opcodes: a fault that names the word.
    pub fn unknown_opcode(&mut self, op: u16) -> (res: Result<(), Fault>)
        ensures
            res == Err::<(), Fault>(Fault::UnknownOpcode(op)),
            final(self)@ == old(self)@,
    {
        Err(Fault::UnknownOpcode(op))
    }

    /// Executes one decoded instruction on key states and a random byte that
    /// were obtained already. A fault leaves the state as it was.
    pub fn execute_with(&mut self, instr: Instruction, keys: &[bool; 16], random: u8) -> (res:
        Result<Status, Fault>)
        requires
            instr.wf(),
        ensures
            (final(self)@, res) == old(self)@.execute(instr, keys@, random),
    {
        match instr {
            Instruction::Cls => self.cls(),
            Instruction::Ret => self.ret()?,
            Instruction::Sys { addr } => self.sys(addr),
            Instruction::Jp { addr } => self.jp(addr),
            Instruction::Call { addr } => self.call(addr)?,
            Instruction::Se { x, kk } => self.se(x, kk),
            Instruction::Sne { x, kk } => self.sne(x, kk),
            Instruction::SeReg { x, y } => self.se_reg(x, y),
            Instruction::Ldx { x, kk } => self.ldx(x, kk),
            Instruction::AddByte { x, kk } => self.add_byte(x, kk),
            Instruction::Ld { x, y } => self.ld(x, y),
            Instruction::Or { x, y } => self.or(x, y),
            Instruction::And { x, y } => self.and(x, y),
            Instruction::Xor { x, y } => self.xor(x, y),
            Instruction::AddReg { x, y } => self.add_reg(x, y),
            Instruction::Sub { x, y } => self.sub(x, y),
            Instruction::Shr { x } => self.shr(x),
            Instruction::Subn { x, y } => self.subn(x, y),
            Instruction::Shl { x } => self.shl(x),
            Instruction::SneReg { x, y } => self.sne_reg(x, y),
            Instruction::Ldi { addr } => self.ldi(addr),
            Instruction::JpV0 { addr } => self.jp_v0(addr),
            Instruction::Rnd { x, kk } => self.rnd_with(x, kk, random),
            Instruction::Drw { x, y, n } => self.drw(x, y, n),
            Instruction::Skp { x } => self.skp_with(x, keys)?,
            Instruction::Sknp { x } => self.sknp_with(x, keys)?,
            Instruction::LdDtIntoVx { x } => self.ld_dt_into_vx(x),
            Instruction::LdKIntoVx { x } => {
                return Ok(self.ld_k_into_vx_with(x, keys));
            },
            Instruction::LdVxIntoDt { x } => self.ld_vx_into_dt(x),
            Instruction::LdVxIntoSt { x } => self.ld_vx_into_st(x),
            Instruction::AddVx { x } => self.add_vx(x),
            Instruction::LdVxDigitIntoF { x } => self.ld_vx_digit_into_f(x),
            Instruction::LdVxIntoBcd { x } => self.ld_vx_into_bcd(x),
            Instruction::LdV0ToVxIntoI { x } => self.ld_v0_to_vx_into_i(x),
            Instruction::LdIIntoV0ToVx { x } => self.ld_i_into_v0_to_vx(x),
            Instruction::Unknown { op } => self.unknown_opcode(op)?,
        }
        Ok(Status::Running)
    }

    /// Executes one decoded instruction. The input device is polled once if
    /// the instruction reads the keys, and a random byte is drawn if it is
    /// `RND`: the result is that of `execute_with` on what they gave.
    pub fn execute(&mut self, instr: Instruction) -> (res: Result<Status, Fault>)
        requires
            instr.wf(),
        ensures
            exists|keys: Seq<bool>, random: u8|
                keys.len() == 16 && (final(self)@, res) == #[trigger] old(self)@.execute(
                    instr,
                    keys,
                    random,
                ),
    {
        let keys = match instr {
            Instruction::Skp { .. } | Instruction::Sknp { .. } | Instruction::LdKIntoVx { .. } => {
                self.input.get_key_states()
            },
            _ => [false; 16],
        };
        let random = match instr {
            Instruction::Rnd { .. } => random_byte(&mut self.rng),
            _ => 0,
        };
        let res = self.execute_with(instr, &keys, random);
        assert((self@, res) == old(self)@.execute(instr, keys@, random));
        res
    }

    /// Ends a step whose instruction was fetched at `start`: the timers count
    /// down after an executed instruction, and the program counter goes back
    /// to an instruction that still waits for a key.
    fn settle(&mut self, start: u16, outcome: Result<Status, Fault>)
        ensures
            final(self)@ == match outcome {
                Ok(Status::Running) => old(self)@.tick(),
                Ok(Status::AwaitingKey) => old(self)@.jp(start),
                Err(_) => old(self)@,
            },
    {
        match outcome {
            Ok(Status::Running) => self.update_timers(),
            Ok(Status::AwaitingKey) => self.pc = start,
            Err(_) => {},
        }
    }

    /// One step of the CPU on key states and a random byte that were obtained
    /// already: fetch, decode, execute, then the timers.
    pub fn step_with(&mut self, keys: &[bool; 16], random: u8) -> (res: Result<Status, Fault>)
        ensures
            (final(self)@, res) == old(self)@.step(keys@, random),
    {
        let start = self.pc;
        let op = self.next_opcode();
        let res = self.execute_with(decode(op), keys, random);
        self.settle(start, res);
        res
    }

    /// One step of the CPU: fetches the instruction at the program counter,
    /// moves the program counter past it, executes the instruction and lets
    /// the timers count down. A fault is returned, not raised; an instruction
    /// that waits for a key while none is pressed leaves the state untouched
    /// and reports that the CPU is waiting.
    pub fn step(&mut self) -> (res: Result<Status, Fault>)
        ensures
            exists|keys: Seq<bool>, random: u8|
                keys.len() == 16 && (final(self)@, res) == #[trigger] old(self)@.step(
                    keys,
                    random,
                ),
    {
        let start = self.pc;
        let op = self.next_opcode();
        let res = self.execute(decode(op));
        let ghost (keys, random) = choose|keys: Seq<bool>, random: u8|
            keys.len() == 16 && (self@, res) == #[trigger] old(self)@.advance().execute(
                decoded(op),
                keys,
                random,
            );
        self.settle(start, res);
        assert((self@, res) == old(self)@.step(keys, random));
        res
    }
    /// The state of the CPU as text, for diagnostics.
    pub fn to_string(&self) -> (text: String)
        ensures
            text@ == dump(self@),
    {
        let mut text = String::from_str("CHIP8 CPU @ 0x");
        push_hex_word(&mut text, self.pc);
        text.append("\r\n");
        let ghost head = text@;
        let mut k: usize = 0;
        while k < 16
            invariant
                k <= 16,
                text@ == head + registers_text(self.v@, k as int),
            decreases 16 - k,
        {
            let ghost before = text@;
            text.append("V");
            text.append(digit_text(k as u8));
            text.append(": ");
            push_upper_hex(&mut text, self.v[k] as u16);
            if k % 4 == 3 {
                text.append("\r\n");
            } else {
                text.append(", ");
            }
            assert(text@ =~= before + register_text(self.v@, k as int));
            k = k + 1;
        }
        text.append("\r\nSTACK:\r\n");
        let ghost head = text@;
        let top = first_free_slot(&self.stack);
        let mut k: usize = 0;
        while k < top
            invariant
                k <= top <= 16,
                text@ == head + slots_text(self.stack@, k as int),
            decreases top - k,
        {
            let ghost before = text@;
            text.append(">> ");
            push_decimal(&mut text, k);
            text.append(": 0x");
            push_hex_word(&mut text, self.stack[k]);
            text.append("\r\n");
            assert(text@ =~= before + slot_text(self.stack@, k as int));
            k = k + 1;
        }
        text.append("\r\nI: ");
        push_upper_hex(&mut text, self.i);
        text.append("\r\nST: ");
        push_upper_hex(&mut text, self.st as u16);
        text.append("\r\nDT: ");
        push_upper_hex(&mut text, self.dt as u16);
        text
    }
}

} // verus!
