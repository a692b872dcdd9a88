use chip8::ram::{Memory, Ram, FONT_DATA, PROGRAM_START};
use chip8::rom::{Rom, MAX_ROM_SIZE};

#[test]
fn new_ram_is_all_zero() {
    let mut ram = Ram::new();
    for addr in 0..0x1000u16 {
        assert_eq!(ram.lb(addr), 0);
    }
    assert_eq!(ram.mem.len(), 0x1000);
}

#[test]
fn store_then_load_gives_the_byte_back() {
    let mut ram = Ram::new();
    ram.sb(0x0000, 0x11);
    ram.sb(0x0FFF, 0x22);
    ram.sb(0x0ABC, 0x33);
    assert_eq!(ram.lb(0x0000), 0x11);
    assert_eq!(ram.lb(0x0FFF), 0x22);
    assert_eq!(ram.lb(0x0ABC), 0x33);
    assert_eq!(ram.lb(0x0ABD), 0);
}

#[test]
fn address_0x1200_is_address_0x200() {
    let mut ram = Ram::new();
    ram.sb(0x1200, 0x5A);
    assert_eq!(ram.lb(0x0200), 0x5A);
    assert_eq!(ram.mem[0x200], 0x5A);
    ram.sb(0x0200, 0xA5);
    assert_eq!(ram.lb(0x1200), 0xA5);
}

#[test]
fn every_address_wraps_at_twelve_bits() {
    let mut ram = Ram::new();
    for addr in 0..0x1000u16 {
        ram.sb(addr, (addr % 251) as u8);
    }
    for addr in 0..=0xFFFFu16 {
        assert_eq!(ram.lb(addr), ((addr & 0xFFF) % 251) as u8);
    }
    ram.sb(0xFFFF, 0x77);
    assert_eq!(ram.mem[0xFFF], 0x77);
    ram.sb(0xF000, 0x78);
    assert_eq!(ram.mem[0x000], 0x78);
}

#[test]
fn load_does_not_change_memory() {
    let mut ram = Ram::new();
    ram.sb(0x300, 9);
    let before = ram.mem;
    let _ = ram.lb(0x300);
    let _ = ram.lb(0x1300);
    assert_eq!(ram.mem[..], before[..]);
}

#[test]
fn rom_keeps_bytes_name_and_length() {
    let rom = Rom::new(&[0x12, 0x34, 0x56], "pong.ch8".to_string());
    assert_eq!(rom.filename, "pong.ch8");
    assert_eq!(rom.length, 3);
    assert_eq!(rom.data[..3], [0x12, 0x34, 0x56]);
    assert!(rom.data[3..].iter().all(|b| *b == 0));
    assert_eq!(rom.data.len(), MAX_ROM_SIZE);
}

#[test]
fn rom_of_no_bytes_is_empty() {
    let rom = Rom::new(&[], String::new());
    assert_eq!(rom.length, 0);
    assert!(rom.data.iter().all(|b| *b == 0));
}

#[test]
fn rom_is_cut_at_3232_bytes() {
    let bytes: Vec<u8> = (0..5000usize).map(|k| (k % 253) as u8 + 1).collect();
    let rom = Rom::new(&bytes, "big".to_string());
    assert_eq!(rom.length, 3232);
    assert_eq!(rom.data[..], bytes[..3232]);

    let exact = Rom::new(&bytes[..3232], "exact".to_string());
    assert_eq!(exact.length, 3232);
    let below = Rom::new(&bytes[..3231], "below".to_string());
    assert_eq!(below.length, 3231);
    assert_eq!(below.data[3231], 0);
}

#[test]
fn rom_summary_names_file_and_length() {
    let rom = Rom::new(&[1, 2, 3], "pong.ch8".to_string());
    assert_eq!(rom.to_string(), "CHIP8 ROM (pong.ch8): 3KB");
    let empty = Rom::new(&[], String::new());
    assert_eq!(empty.to_string(), "CHIP8 ROM (): 0KB");
    let bytes = vec![0u8; 3232];
    let full = Rom::new(&bytes, "a b".to_string());
    assert_eq!(full.to_string(), "CHIP8 ROM (a b): 3232KB");
}

#[test]
fn ram_from_rom_holds_font_then_program() {
    let program: Vec<u8> = (0..100usize).map(|k| 0xFF - k as u8).collect();
    let rom = Rom::new(&program, "p".to_string());
    let mut ram = Ram::new_from_rom(&rom);
    for a in 0..80usize {
        assert_eq!(ram.lb(a as u16), FONT_DATA[a]);
    }
    for a in 80..PROGRAM_START {
        assert_eq!(ram.lb(a as u16), 0);
    }
    for k in 0..100usize {
        assert_eq!(ram.lb((PROGRAM_START + k) as u16), program[k]);
    }
    for a in (PROGRAM_START + 100)..0x1000 {
        assert_eq!(ram.lb(a as u16), 0);
    }
}

#[test]
fn font_glyphs_are_the_known_ones() {
    let rom = Rom::new(&[], String::new());
    let ram = Ram::new_from_rom(&rom);
    assert_eq!(ram.mem[0..5], [0xF0, 0x90, 0x90, 0x90, 0xF0]);
    assert_eq!(ram.mem[5..10], [0x20, 0x60, 0x20, 0x20, 0x70]);
    assert_eq!(ram.mem[0x4B..0x50], [0xF0, 0x80, 0xF0, 0x80, 0x80]);
    assert_eq!(ram.mem[0x50], 0);
    assert!(ram.mem[0x50..].iter().all(|b| *b == 0));
}

#[test]
fn ram_from_full_rom_ends_at_0xea0() {
    let bytes = vec![0xEEu8; 4000];
    let rom = Rom::new(&bytes, "full".to_string());
    let ram = Ram::new_from_rom(&rom);
    assert!(ram.mem[0x200..0xEA0].iter().all(|b| *b == 0xEE));
    assert!(ram.mem[0xEA0..].iter().all(|b| *b == 0));
}
