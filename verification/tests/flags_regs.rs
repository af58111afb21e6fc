//! The register file and the flag bits: pair write/read round trips and
//! the independence of the four flags.

use iogb::bootrom::Bootrom;
use iogb::cartridge::Cartridge;
use iogb::cpu::{Flags, RegsB, RegsW, Registers};
use iogb::gameboy::GameBoy;

fn any_gb() -> GameBoy {
    let mut rom = vec![0u8; 0x8000];
    let title = b"REGS";
    for (i, b) in title.iter().enumerate() {
        rom[0x134 + i] = *b;
    }
    let cart = Cartridge::new(rom).unwrap();
    GameBoy::new(cart, Bootrom::new(None).unwrap())
}

fn zero_regs() -> Registers {
    Registers { a: 0, b: 0, c: 0, d: 0, e: 0, f: 0, h: 0, l: 0, pc: 0, sp: 0 }
}

#[test]
fn pair_write_read_roundtrip() {
    let mut regs = zero_regs();
    for pair in [RegsW::BC, RegsW::DE, RegsW::HL, RegsW::SP, RegsW::PC] {
        for w in [0x0000u16, 0x1234, 0xABCD, 0xFFFF] {
            regs.writew(pair, w);
            assert_eq!(regs.readw(pair), w);
        }
    }
}

#[test]
fn af_reads_back_with_clear_low_nibble() {
    let mut regs = zero_regs();
    for w in [0x0000u16, 0x1234, 0xABCD, 0xFFFF] {
        regs.writew(RegsW::AF, w);
        assert_eq!(regs.readw(RegsW::AF), w & 0xFFF0);
    }
}

#[test]
fn byte_registers_roundtrip() {
    let mut regs = zero_regs();
    let all = [RegsB::A, RegsB::B, RegsB::C, RegsB::D, RegsB::E, RegsB::H, RegsB::L];
    for (i, r) in all.iter().enumerate() {
        regs.writeb(*r, 0x20 + i as u8);
    }
    for (i, r) in all.iter().enumerate() {
        assert_eq!(regs.readb(*r), 0x20 + i as u8);
    }
}

#[test]
fn pairs_alias_their_bytes_big_endian() {
    let mut regs = zero_regs();
    regs.writew(RegsW::BC, 0x1234);
    assert_eq!(regs.b, 0x12);
    assert_eq!(regs.c, 0x34);
    regs.writew(RegsW::HL, 0xC0DE);
    assert_eq!(regs.h, 0xC0);
    assert_eq!(regs.l, 0xDE);
}

#[test]
fn flags_set_and_check_independently() {
    let mut gb = any_gb();
    let all = [Flags::Z, Flags::N, Flags::H, Flags::C];
    for set_to in [true, false] {
        for flag in all {
            // record the other flags, flip one, check nothing else moved
            let before: Vec<bool> = all.iter().map(|f| gb.cpu.check_flag(*f)).collect();
            gb.cpu.set_flag(flag, set_to);
            assert_eq!(gb.cpu.check_flag(flag), set_to);
            for (i, f) in all.iter().enumerate() {
                if *f != flag {
                    assert_eq!(gb.cpu.check_flag(*f), before[i], "{f:?} moved");
                }
            }
        }
    }
}

#[test]
fn flag_masks_sit_in_the_high_nibble() {
    assert_eq!(Flags::C.mask(), 0x10);
    assert_eq!(Flags::H.mask(), 0x20);
    assert_eq!(Flags::N.mask(), 0x40);
    assert_eq!(Flags::Z.mask(), 0x80);
}
