use chip8::cpu::Cpu;
use chip8::input::MockInput;
use chip8::machine::{Fault, Status};
use chip8::ram::{Memory, Ram};

#[test]
fn test_ret()
{
    let ram = Ram::new();
    let keys = &mut [false;16];
    let kb = &MockInput::new(keys);
    let mut cpu = Cpu::new(ram, kb);

    cpu.pc = 0x200;
    cpu.stack[0] = 0xAFC;
    cpu.stack[1] = 0xBBB;
    
    cpu.ret().unwrap();
    assert!(cpu.pc == 0xBBB); // Jumped to latest value on the stack
    for item in cpu.stack.iter().skip(1)
    {
        assert!(*item == 0x0)
    }

    cpu.ret().unwrap();
    assert!(cpu.pc == 0xAFC); // Jumped to latest value on the stack
    for item in cpu.stack.iter()
    {
        assert!(*item == 0x0)
    }
}

#[test]
fn test_ret_panics_with_empty_stack()
{
    let ram = Ram::new();
    let keys = &mut [false;16];
    let kb = &MockInput::new(keys);
    let mut cpu = Cpu::new(ram, kb);

    assert_eq!(cpu.ret(), Err(Fault::StackUnderflow));
}

#[test]
fn test_jp()
{
    let ram = Ram::new();
    let keys = &mut [false;16];
    let kb = &MockInput::new(keys);
    let mut cpu = Cpu::new(ram, kb);
    
    cpu.pc = 0x0;
    cpu.jp(0xABC);
    assert!(cpu.pc == 0xABC);

    cpu.jp(0xFAF);
    assert!(cpu.pc == 0xFAF);
}

#[test]
fn test_call()
{
    let ram = Ram::new();
    let keys = &mut [false;16];
    let kb = &MockInput::new(keys);
    let mut cpu = Cpu::new(ram, kb);

    cpu.pc = 0x200;
    
    cpu.call(0xFFF).unwrap();
    assert!(cpu.pc == 0xFFF); // PC after call is at PC
    assert!(cpu.stack[0] == 0x200); // PC before we called is on top of stack
    for item in cpu.stack.iter().skip(1)
    {
        assert!(*item == 0x0)
    }

    cpu.call(0xAAA).unwrap();
    assert!(cpu.pc == 0xAAA); // New call, new PC
    assert!(cpu.stack[0] == 0x200); // nested call, oldest return address still at the top
    assert!(cpu.stack[1] == 0xFFF); // next return address at the next position
    for item in cpu.stack.iter().skip(2)
    {
        assert!(*item == 0x0)
    }
}

#[test]
fn test_call_overflows()
{
    let ram = Ram::new();
    let keys = &mut [false;16];
    let kb = &MockInput::new(keys);
    let mut cpu = Cpu::new(ram, kb);

    for _ in  0..16 {
        assert_eq!(cpu.call(0xFFF), Ok(()));
    }
    assert_eq!(cpu.call(0xFFF), Err(Fault::StackOverflow));
}

#[test]
fn test_se()
{
    let ram = Ram::new();
    let keys = &mut [false;16];
    let kb = &MockInput::new(keys);
    let mut cpu = Cpu::new(ram, kb);
    
    cpu.v[0] = 0xAF;
    cpu.pc = 0x0;
    cpu.se(0x0, 0xAF);
    assert!(cpu.pc == 0x02); // Skipped one instruction

    cpu.se(0xF, 0xFF);
    assert!(cpu.pc == 0x02); // Register does not match, no skip
}

#[test]
fn test_sne()
{
    let ram = Ram::new();
    let keys = &mut [false;16];
    let kb = &MockInput::new(keys);
    let mut cpu = Cpu::new(ram, kb);
    
    cpu.v[0] = 0xAF;
    cpu.pc = 0x0;
    cpu.sne(0x0, 0xAF);
    assert!(cpu.pc == 0x00); // Skipped does match, no skip

    cpu.sne(0xF, 0xFF);
    assert!(cpu.pc == 0x02); // Register does match, skipped on opcode
}

#[test]
fn test_se_reg()
{
    let ram = Ram::new();
    let keys = &mut [false;16];
    let kb = &MockInput::new(keys);
    let mut cpu = Cpu::new(ram, kb);
    
    cpu.v[0] = 0xAF;
    cpu.v[0xA] = 0xFF;
    cpu.v[0x4] = 0xAF;
    cpu.pc = 0x0;

    cpu.se_reg(0x0, 0x4);
    assert!(cpu.pc == 0x02); // Skipped one instruction

    cpu.se_reg(0x4, 0x0);
    assert!(cpu.pc == 0x04); // Skipped one instruction

    cpu.se_reg(0x0, 0xA);
    assert!(cpu.pc == 0x04); // Registers do not match, no skip
}

#[test]
fn test_add_byte()
{
    let ram = Ram::new();
    let keys = &mut [false;16];
    let kb = &MockInput::new(keys);
    let mut cpu = Cpu::new(ram, kb);
    
    cpu.add_byte(0xA, 0xFF);
    assert!(cpu.v[0xA] == 0xFF);

    cpu.add_byte(0xA, 0x09); // ADD should wrap properly
    assert!(cpu.v[0xA] == 0x08);

    cpu.add_byte(0xC, 0x04);
    assert!(cpu.v[0xC] == 0x04);
    assert!(cpu.v[0xA] == 0x08);
}

#[test]
fn test_ld()
{
    let ram = Ram::new();
    let keys = &mut [false;16];
    let kb = &MockInput::new(keys);
    let mut cpu = Cpu::new(ram, kb);
    
    cpu.v[0xF] = 0x34;
    cpu.ld(0xA, 0xF);
    assert!(cpu.v[0xA] == 0x34);
}

#[test]
fn test_ldx()
{
    let ram = Ram::new();
    let keys = &mut [false;16];
    let kb = &MockInput::new(keys);
    let mut cpu = Cpu::new(ram, kb);
    
    cpu.ldx(0xA, 0xFF);
    assert!(cpu.v[0xA] == 0xFF);

    cpu.ldx(0x3, 0x21);
    assert!(cpu.v[0x3] == 0x21);
    assert!(cpu.v[0xA] == 0xFF);

    cpu.ldx(0xA, 0x02);
    assert!(cpu.v[0x3] == 0x21);
    assert!(cpu.v[0xA] == 0x02);
}

#[test]
fn test_or()
{
    let ram = Ram::new();
    let keys = &mut [false;16];
    let kb = &MockInput::new(keys);
    let mut cpu = Cpu::new(ram, kb);
    
    cpu.v[0xA] = 0xC;
    cpu.v[0xB] = 0x3;
    cpu.or(0xA, 0xB);
    assert!(cpu.v[0xA] == 0xC | 0x3);
    assert!(cpu.v[0xB] == 0x3);
}

#[test]
fn test_and()
{
    let ram = Ram::new();
    let keys = &mut [false;16];
    let kb = &MockInput::new(keys);
    let mut cpu = Cpu::new(ram, kb);
    
    cpu.v[0xA] = 0xC;
    cpu.v[0xB] = 0x3;
    cpu.and(0xA, 0xB);
    assert!(cpu.v[0xA] == 0xC & 0x3);
    assert!(cpu.v[0xB] == 0x3);
}

#[test]
fn test_xor()
{
    let ram = Ram::new();
    let keys = &mut [false;16];
    let kb = &MockInput::new(keys);
    let mut cpu = Cpu::new(ram, kb);
    
    cpu.v[0xA] = 0xC;
    cpu.v[0xB] = 0x3;
    cpu.xor(0xA, 0xB);
    assert!(cpu.v[0xA] == 0xC ^ 0x3);
    assert!(cpu.v[0xB] == 0x3);
}

#[test]
fn test_add_reg()
{
    let ram = Ram::new();
    let keys = &mut [false;16];
    let kb = &MockInput::new(keys);
    let mut cpu = Cpu::new(ram, kb);
    
    cpu.v[0xA] = 0xC;
    cpu.v[0xB] = 0x3;
    cpu.v[0xF] = 0xFF;
    cpu.add_reg(0xA, 0xB);
    assert!(cpu.v[0xA] == 0xC + 0x3);
    assert!(cpu.v[0xB] == 0x3);
    assert!(cpu.v[0xF] == 0x0); // VF = 0 since no overflow
}

#[test]
fn test_add_reg_overflows()
{
    let ram = Ram::new();
    let keys = &mut [false;16];
    let kb = &MockInput::new(keys);
    let mut cpu = Cpu::new(ram, kb);
    
    cpu.v[0xA] = 0xFA;
    cpu.v[0xB] = 0xAF;
    cpu.v[0xF] = 0xFF;
    cpu.add_reg(0xA, 0xB);
    assert!(cpu.v[0xA] == (0xFA as u8).wrapping_add(0xAF));
    assert!(cpu.v[0xB] == 0xAF);
    assert!(cpu.v[0xF] == 0x1); // VF = 1 since overflow occured
}

#[test]
fn test_sub()
{
    let ram = Ram::new();
    let keys = &mut [false;16];
    let kb = &MockInput::new(keys);
    let mut cpu = Cpu::new(ram, kb);
    
    cpu.v[0xA] = 0xC;
    cpu.v[0xB] = 0x3;
    cpu.v[0xF] = 0xFF;
    cpu.sub(0xA, 0xB);
    assert!(cpu.v[0xA] == 0xC - 0x3);
    assert!(cpu.v[0xB] == 0x3);
    assert!(cpu.v[0xF] == 0x1); // VF = 1 since no borrow and flag is !borrow
}

#[test]
fn test_sub_borrow()
{
    let ram = Ram::new();
    let keys = &mut [false;16];
    let kb = &MockInput::new(keys);
    let mut cpu = Cpu::new(ram, kb);
    
    cpu.v[0xA] = 0xAF;
    cpu.v[0xB] = 0xFA;
    cpu.v[0xF] = 0xFF;
    cpu.sub(0xA, 0xB);
    assert!(cpu.v[0xA] == (0xAF as u8).wrapping_sub(0xFA));
    assert!(cpu.v[0xB] == 0xFA);
    assert!(cpu.v[0xF] == 0x0); // VF = 0 since borrow occured and flag is !borrow
}

#[test]
fn test_shr()
{
    let ram = Ram::new();
    let keys = &mut [false;16];
    let kb = &MockInput::new(keys);
    let mut cpu = Cpu::new(ram, kb);
    
    cpu.v[0xA] = 0xFF;
    cpu.v[0xB] = 0x00;
    cpu.v[0xC] = 0x62;
    cpu.v[0xF] = 0xFF;

    cpu.shr(0xA);
    assert!(cpu.v[0xA] == 0xFF >> 1);
    assert!(cpu.v[0xF] == 0x1); // VF = 1 since lsb is 1

    cpu.shr(0xB);
    assert!(cpu.v[0xB] == 0x00 >> 1);
    assert!(cpu.v[0xF] == 0x0); // VF = 0 since lsb is 0

    cpu.v[0xF] = 0xFF;
    cpu.shr(0xC);
    assert!(cpu.v[0xC] == 0x62 >> 1); // 01100010 >> 00110001
    assert!(cpu.v[0xF] == 0x0); // VF = 0 since lsb is 0
}

#[test]
fn test_subn()
{
    let ram = Ram::new();
    let keys = &mut [false;16];
    let kb = &MockInput::new(keys);
    let mut cpu = Cpu::new(ram, kb);
    
    cpu.v[0xA] = 0x3;
    cpu.v[0xB] = 0xC;
    cpu.v[0xF] = 0xFF;
    cpu.subn(0xA, 0xB);
    assert!(cpu.v[0xA] == 0xC - 0x3);
    assert!(cpu.v[0xB] == 0xC);
    assert!(cpu.v[0xF] == 0x1); // VF = 1 since no borrow and flag is !borrow
}

#[test]
fn test_subn_borrow()
{
    let ram = Ram::new();
    let keys = &mut [false;16];
    let kb = &MockInput::new(keys);
    let mut cpu = Cpu::new(ram, kb);
    
    cpu.v[0xA] = 0xFA;
    cpu.v[0xB] = 0xAF;
    cpu.v[0xF] = 0xFF;
    cpu.subn(0xA, 0xB);
    assert!(cpu.v[0xA] == (0xAF as u8).wrapping_sub(0xFA));
    assert!(cpu.v[0xB] == 0xAF);
    assert!(cpu.v[0xF] == 0x0); // VF = 0 since borrow occured and flag is !borrow
}

#[test]
fn test_shl()
{
    let ram = Ram::new();
    let keys = &mut [false;16];
    let kb = &MockInput::new(keys);
    let mut cpu = Cpu::new(ram, kb);
    
    cpu.v[0xA] = 0xFF;
    cpu.v[0xB] = 0x00;
    cpu.v[0xC] = 0x62;
    cpu.v[0xF] = 0xFF;

    cpu.shl(0xA);
    assert!(cpu.v[0xA] == 0xFF << 1);
    assert!(cpu.v[0xF] == 0x1); // VF = 1 since msb is 1

    cpu.shl(0xB);
    assert!(cpu.v[0xB] == 0x00 << 1);
    assert!(cpu.v[0xF] == 0x0); // VF = 0 since msb is 0

    cpu.v[0xF] = 0xFF;
    cpu.shl(0xC);
    assert!(cpu.v[0xC] == 0x62 << 1); // 01100010 << 11000100
    assert!(cpu.v[0xF] == 0x0); // VF = 0 since msb is 0
}

#[test]
fn test_sne_reg()
{
    let ram = Ram::new();
    let keys = &mut [false;16];
    let kb = &MockInput::new(keys);
    let mut cpu = Cpu::new(ram, kb);

    cpu.pc = 0x0;
    cpu.v[0xA] = 0x3;
    cpu.v[0xB] = 0xC;
    cpu.v[0xC] = 0xC;
    
    cpu.sne_reg(0xB, 0xC);
    assert!(cpu.pc == 0x0); // No skip because [0xB] == [0xC]

    cpu.sne_reg(0xA, 0xC); 
    assert!(cpu.pc == 0x2); // This skips

    cpu.sne_reg(0xC, 0xA);
    assert!(cpu.pc == 0x4); // So does this
}

#[test]
fn test_ldi()
{
    let ram = Ram::new();
    let keys = &mut [false;16];
    let kb = &MockInput::new(keys);
    let mut cpu = Cpu::new(ram, kb);

    cpu.ldi(0xFFF);
    assert!(cpu.i == 0xFFF);

    cpu.ldi(0xACE);
    assert!(cpu.i == 0xACE);
}

#[test]
fn test_jp_v0()
{
    let ram = Ram::new();
    let keys = &mut [false;16];
    let kb = &MockInput::new(keys);
    let mut cpu = Cpu::new(ram, kb);

    cpu.v[0] = 0xAC;
    cpu.jp_v0(0x21);
    assert!(cpu.pc == 0x21 + 0xAC);
}

#[test]
fn test_rnd()
{
    let ram = Ram::new();
    let keys = &mut [false;16];
    let kb = &MockInput::new(keys);
    let mut cpu = Cpu::new(ram, kb);
    
    cpu.v[0xA] = 0xFF;
    cpu.v[0x3] = 0xFF;
    cpu.v[0xD] = 0xFF;

    cpu.rnd(0xA, 0x00);
    assert!(cpu.v[0xA] == 0x00); // Always zero as mask is set

    cpu.rnd(0x3, 0xF0);
    assert!(cpu.v[0x3] & 0x0F == 0x00);

    cpu.rnd(0xD, 0x88);
    assert!(cpu.v[0xD] & 0b01110111 == 0x00);
}

#[test]
fn test_skp()
{
    let ram = Ram::new();
    let keys = &mut [false;16];
    keys[3] = true;
    keys[0xA] = true;

    let kb = &MockInput::new(keys);
    let mut cpu = Cpu::new(ram, kb);
    
    cpu.pc = 0x0;
    cpu.v[0x0] = 3;
    cpu.v[0xC] = 0xF;
    cpu.v[0xD] = 0xA;

    cpu.skp(0x0).unwrap(); // Key directed to by register V0 has been pressed
    assert!(cpu.pc == 0x2);

    cpu.skp(0xC).unwrap(); // Key directed to by register VC has bot been pressed
    assert!(cpu.pc == 0x2);

    cpu.skp(0xD).unwrap(); // Key directed to by register VD has been pressed
    assert!(cpu.pc == 0x4);
}

#[test]
fn test_sknp()
{
    let ram = Ram::new();
    let keys = &mut [false;16];
    keys[3] = true;
    keys[0xA] = true;

    let kb = &MockInput::new(keys);
    let mut cpu = Cpu::new(ram, kb);
    
    cpu.pc = 0x0;
    cpu.v[0x0] = 3;
    cpu.v[0xC] = 0xF;
    cpu.v[0xD] = 0xA;

    cpu.sknp(0x0).unwrap(); // Key directed to by register V0 has been pressed
    assert!(cpu.pc == 0x0);

    cpu.sknp(0xC).unwrap(); // Key directed to by register VC has bot been pressed
    assert!(cpu.pc == 0x2);

    cpu.sknp(0xD).unwrap(); // Key directed to by register VD has been pressed
    assert!(cpu.pc == 0x2);
}

#[test]
fn test_dt_into_vx()
{
    let ram = Ram::new();
    let keys = &mut [false;16];
    let kb = &MockInput::new(keys);
    let mut cpu = Cpu::new(ram, kb);
    
    cpu.dt = 0xFF;
    cpu.ld_dt_into_vx(0);

    assert!(cpu.v[0] == 0xFF);

    cpu.dt = 0x30;
    cpu.ld_dt_into_vx(0x5);

    assert!(cpu.v[5] == 0x30);
}

#[test]
fn test_ld_k_into_vx()
{
    let ram = Ram::new();
    let keys = &mut [false;16];
    keys[0xA] = true;
    keys[0xB] = true;
    let kb = &MockInput::new(keys);
    let mut cpu = Cpu::new(ram, kb);
    
    cpu.v[0xC] = 0xF;
    assert_eq!(cpu.ld_k_into_vx(0xC), Status::Running);
    assert!(cpu.v[0xC] == 0xA); // Register set to first pressed key
}

#[test]
fn test_ld_vx_into_dt()
{
    let ram = Ram::new();
    let keys = &mut [false;16];
    let kb = &MockInput::new(keys);
    let mut cpu = Cpu::new(ram, kb);
    
    cpu.v[0] = 3;
    cpu.ld_vx_into_dt(0);

    assert!(cpu.dt == 0x03);

    cpu.v[0xF] = 0xAE;
    cpu.ld_vx_into_dt(0xF);

    assert!(cpu.dt == 0xAE);
}

#[test]
fn test_ld_vx_into_st()
{
    let ram = Ram::new();
    let keys = &mut [false;16];
    let kb = &MockInput::new(keys);
    let mut cpu = Cpu::new(ram, kb);
    
    cpu.v[0] = 3;
    cpu.ld_vx_into_st(0);

    assert!(cpu.st == 0x03);

    cpu.v[0xF] = 0xAE;
    cpu.ld_vx_into_st(0xF);

    assert!(cpu.st == 0xAE);
}

#[test]
fn test_add_vx()
{
    let ram = Ram::new();
    let keys = &mut [false;16];
    let kb = &MockInput::new(keys);
    let mut cpu = Cpu::new(ram, kb);
    
    cpu.i = 0x2;
    cpu.v[0] = 0x3;
    cpu.add_vx(0);

    assert!(cpu.i == 0x2 + 0x3);

    cpu.v[0xF] = 0xAE;
    cpu.add_vx(0xF);

    assert!(cpu.i == 0x2 + 0x3 + 0xAE);
}

#[test]
fn test_ld_vx_digit_into_f()
{
    let ram = Ram::new();
    let keys = &mut [false;16];
    let kb = &MockInput::new(keys);
    let mut cpu = Cpu::new(ram, kb);
    
    cpu.i = 0x0;
    cpu.v[0] = 3;
    cpu.ld_vx_digit_into_f(0);

    assert!(cpu.i == 0xF); // 15 bytes for digits 0, 1, 2 and 3 starts at 0xF

    cpu.i = 0x0;
    cpu.v[0xF] = 0xE;
    cpu.ld_vx_digit_into_f(0xF);

    assert!(cpu.i == 0x46); // 70 bytes for previous digits and F starts at 0x46
}

#[test]
fn test_ld_vx_into_bcd()
{
    let ram = Ram::new();
    let keys = &mut [false;16];
    let kb = &MockInput::new(keys);
    let mut cpu = Cpu::new(ram, kb);
    
    cpu.i = 0x0;
    cpu.v[0] = 123;

    cpu.ld_vx_into_bcd(0);

    // Should result in 1 at I, 2 at I+1 and 3 at I+2
    assert!(cpu.ram.lb(cpu.i) == 1);
    assert!(cpu.ram.lb(cpu.i+1) == 2);
    assert!(cpu.ram.lb(cpu.i+2) == 3);
}

#[test]
fn test_ld_vx_into_bc_with_smaller_numbers()
{
    let ram = Ram::new();
    let keys = &mut [false;16];
    let kb = &MockInput::new(keys);
    let mut cpu = Cpu::new(ram, kb);
    
    // Put some 0xFF:s into the memory to see writes
    cpu.ram.sb(cpu.i, 0xFF);
    cpu.ram.sb(cpu.i+1, 0xFF);
    cpu.ram.sb(cpu.i+2, 0xFF);

    cpu.i = 0x0;
    cpu.v[0xA] = 1;

    cpu.ld_vx_into_bcd(0xA);

    // Should result in 0 at I, 0 at I+1 and 1 at I+2
    assert!(cpu.ram.lb(cpu.i) == 0);
    assert!(cpu.ram.lb(cpu.i+1) == 0);
    assert!(cpu.ram.lb(cpu.i+2) == 1);
}

#[test]
fn test_ld_v0_to_vx_into_i()
{
    let ram = Ram::new();
    let keys = &mut [false;16];
    let kb = &MockInput::new(keys);
    let mut cpu = Cpu::new(ram, kb);
    
    for i in 0..0x10 { cpu.v[i as usize] = i+1; }

    cpu.i = 0x0;
    cpu.ld_v0_to_vx_into_i(0xF);

    // Should result in memory containing numbers in rising value
    for i in 0..0x10
    {
        assert!(cpu.ram.lb(i) == (i+1) as u8);
    }
}

#[test]
fn test_ld_v0_to_vx_into_i_terminates_properly()
{
    let ram = Ram::new();
    let keys = &mut [false;16];
    let kb = &MockInput::new(keys);
    let mut cpu = Cpu::new(ram, kb);
    
    for i in 0..0x10 { cpu.v[i as usize] = i+1; }

    cpu.i = 0x0;
    cpu.ld_v0_to_vx_into_i(0xA);

    // Should result in memory containing numbers in rising value
    for i in 0..0x10
    {
        assert!(cpu.ram.lb(i) == (if i <= 0xA { i+1 } else { 0 }) as u8);
    }
}

#[test]
fn test_ld_i_into_v0_to_vx()
{
    let ram = Ram::new();
    let keys = &mut [false;16];
    let kb = &MockInput::new(keys);
    let mut cpu = Cpu::new(ram, kb);
    
    for i in 0..0xFF { cpu.ram.sb(i, i as u8); }

    cpu.i = 0x0;
    cpu.ld_i_into_v0_to_vx(0xF);

    // Should result in registers containing numbers in rising value
    for i in 0..0x10
    {
        assert!(cpu.v[i as usize] == i);
    }
}


#[test]
fn test_ld_i_into_v0_to_vx_terminates_properly()
{
    let ram = Ram::new();
    let keys = &mut [false;16];
    let kb = &MockInput::new(keys);
    let mut cpu = Cpu::new(ram, kb);
    
    for i in 0..0xFF { cpu.ram.sb(i, i as u8); }

    cpu.i = 0x0;
    cpu.ld_i_into_v0_to_vx(0xA);

    // Should result registers containing numbers in rising value up to reg VA
    for i in 0..0x10
    {
        assert!(cpu.v[i as usize] == if i <= 0xA { i } else { 0 } );
    }
}
