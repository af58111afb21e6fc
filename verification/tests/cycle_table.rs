//! The per-opcode T-cycle counts, held against the LR35902 reference
//! table: every primary opcode under two flag settings (so both arms of
//! each conditional instruction are exercised), and every CB opcode.

use iogb::bootrom::Bootrom;
use iogb::cartridge::Cartridge;
use iogb::cpu::{Cpu, StepError};
use iogb::gameboy::GameBoy;

/// Reference cycles with F = 0x00 (Z and C clear); 0 marks an opcode this
/// core reports as unimplemented, 0xFFFF the CB prefix.
const CYCLES_FLAGS_CLEAR: [u32; 256] = [
    4, 12, 8, 8, 4, 4, 8, 4, 20, 8, 8, 8, 4, 4, 8, 4,
    0, 12, 8, 8, 4, 4, 8, 4, 12, 8, 8, 8, 4, 4, 8, 4,
    12, 12, 8, 8, 4, 4, 8, 0, 8, 8, 8, 8, 4, 4, 8, 4,
    12, 12, 8, 8, 12, 12, 12, 4, 8, 8, 8, 8, 4, 4, 8, 4,
    4, 4, 4, 4, 4, 4, 8, 4, 4, 4, 4, 4, 4, 4, 8, 4,
    4, 4, 4, 4, 4, 4, 8, 4, 4, 4, 4, 4, 4, 4, 8, 4,
    4, 4, 4, 4, 4, 4, 8, 4, 4, 4, 4, 4, 4, 4, 8, 4,
    8, 8, 8, 8, 8, 8, 0, 8, 4, 4, 4, 4, 4, 4, 8, 4,
    4, 4, 4, 4, 4, 4, 8, 4, 4, 4, 4, 4, 4, 4, 8, 4,
    4, 4, 4, 4, 4, 4, 8, 4, 4, 4, 4, 4, 4, 4, 8, 4,
    4, 4, 4, 4, 4, 4, 8, 4, 4, 4, 4, 4, 4, 4, 8, 4,
    4, 4, 4, 4, 4, 4, 8, 4, 4, 4, 4, 4, 4, 4, 8, 4,
    20, 12, 16, 16, 24, 16, 8, 16, 8, 16, 12, 65535, 12, 24, 8, 16,
    20, 12, 16, 0, 24, 16, 8, 16, 8, 16, 12, 0, 12, 0, 8, 16,
    12, 12, 8, 0, 0, 16, 8, 16, 16, 4, 16, 0, 0, 0, 8, 16,
    12, 12, 8, 4, 0, 16, 8, 16, 12, 8, 16, 4, 0, 0, 8, 16,
];

/// Reference cycles with F = 0x90 (Z and C set).
const CYCLES_FLAGS_SET: [u32; 256] = [
    4, 12, 8, 8, 4, 4, 8, 4, 20, 8, 8, 8, 4, 4, 8, 4,
    0, 12, 8, 8, 4, 4, 8, 4, 12, 8, 8, 8, 4, 4, 8, 4,
    8, 12, 8, 8, 4, 4, 8, 0, 12, 8, 8, 8, 4, 4, 8, 4,
    8, 12, 8, 8, 12, 12, 12, 4, 12, 8, 8, 8, 4, 4, 8, 4,
    4, 4, 4, 4, 4, 4, 8, 4, 4, 4, 4, 4, 4, 4, 8, 4,
    4, 4, 4, 4, 4, 4, 8, 4, 4, 4, 4, 4, 4, 4, 8, 4,
    4, 4, 4, 4, 4, 4, 8, 4, 4, 4, 4, 4, 4, 4, 8, 4,
    8, 8, 8, 8, 8, 8, 0, 8, 4, 4, 4, 4, 4, 4, 8, 4,
    4, 4, 4, 4, 4, 4, 8, 4, 4, 4, 4, 4, 4, 4, 8, 4,
    4, 4, 4, 4, 4, 4, 8, 4, 4, 4, 4, 4, 4, 4, 8, 4,
    4, 4, 4, 4, 4, 4, 8, 4, 4, 4, 4, 4, 4, 4, 8, 4,
    4, 4, 4, 4, 4, 4, 8, 4, 4, 4, 4, 4, 4, 4, 8, 4,
    8, 12, 12, 16, 12, 16, 8, 16, 20, 16, 16, 65535, 24, 24, 8, 16,
    8, 12, 12, 0, 12, 16, 8, 16, 20, 16, 16, 0, 24, 0, 8, 16,
    12, 12, 8, 0, 0, 16, 8, 16, 16, 4, 16, 0, 0, 0, 8, 16,
    12, 12, 8, 4, 0, 16, 8, 16, 12, 8, 16, 4, 0, 0, 8, 16,
];

fn plain_rom() -> Vec<u8> {
    let mut rom = vec![0u8; 0x8000];
    let title = b"CYCLES";
    for (i, b) in title.iter().enumerate() {
        rom[0x134 + i] = *b;
    }
    rom[0x147] = 0x00;
    rom[0x149] = 0x00;
    rom
}

fn cpu_at_wram(f: u8, bytes: &[u8]) -> Cpu {
    let cart = Cartridge::new(plain_rom()).unwrap();
    let brom = Bootrom::new(None).unwrap();
    let mut gb = GameBoy::new(cart, brom);
    for (i, b) in bytes.iter().enumerate() {
        gb.cpu.interconnect.writeb(0xC000 + i as u16, *b);
    }
    gb.cpu.regs.pc = 0xC000;
    gb.cpu.regs.sp = 0xD800;
    gb.cpu.regs.a = 0x55;
    gb.cpu.regs.f = f;
    gb.cpu.regs.b = 0xC8;
    gb.cpu.regs.c = 0x00;
    gb.cpu.regs.d = 0xC8;
    gb.cpu.regs.e = 0x00;
    gb.cpu.regs.h = 0xC8;
    gb.cpu.regs.l = 0x00;
    gb.cpu.interconnect.ic.ime = false;
    gb.cpu
}

fn check_primary(f: u8, table: &[u32; 256]) {
    for op in 0..=255u8 {
        if op == 0xCB {
            continue;
        }
        let mut cpu = cpu_at_wram(f, &[op, 0xC0, 0xC0]);
        let r = cpu.dexec();
        let exp = table[op as usize];
        match r {
            Ok(c) => assert_eq!(c, exp, "opcode {op:#04x} cycles"),
            Err(StepError::Stop { .. }) => assert_eq!(op, 0x10),
            Err(StepError::Unimplemented { op: eop, .. }) => {
                assert_eq!(exp, 0, "opcode {op:#04x} unexpectedly unimplemented");
                assert_eq!(eop, op);
            },
        }
        if exp == 0 {
            assert!(r.is_err(), "opcode {op:#04x} should be unimplemented");
        }
    }
}

#[test]
fn primary_opcode_cycles_flags_clear() {
    check_primary(0x00, &CYCLES_FLAGS_CLEAR);
}

#[test]
fn primary_opcode_cycles_flags_set() {
    check_primary(0x90, &CYCLES_FLAGS_SET);
}

#[test]
fn cb_opcode_cycles() {
    for op in 0..=255u8 {
        let mut cpu = cpu_at_wram(0x00, &[0xCB, op]);
        let r = cpu.dexec().expect("CB opcodes are all implemented");
        // 8 for registers, 16 for (HL), except BIT b,(HL) which is 12.
        let exp: u32 = if op % 8 != 6 {
            8
        } else if (0x40..0x80).contains(&op) {
            12
        } else {
            16
        };
        assert_eq!(r, exp, "CB opcode {op:#04x} cycles");
    }
}
