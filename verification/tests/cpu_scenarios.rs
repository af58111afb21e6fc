//! End-to-end CPU scenarios: the post-boot register file, single
//! instructions with their flag effects, control flow, and the interrupt
//! acknowledge sequence.

use iogb::bootrom::Bootrom;
use iogb::cartridge::Cartridge;
use iogb::cpu::Flags;
use iogb::gameboy::GameBoy;
use iogb::interrupt::Interrupt;

fn rom_with(program: &[(usize, u8)]) -> Vec<u8> {
    let mut rom = vec![0u8; 0x8000];
    let title = b"SCENARIO";
    for (i, b) in title.iter().enumerate() {
        rom[0x134 + i] = *b;
    }
    rom[0x147] = 0x00;
    rom[0x149] = 0x00;
    for (addr, byte) in program {
        rom[*addr] = *byte;
    }
    rom
}

fn fresh_gb(program: &[(usize, u8)]) -> GameBoy {
    let cart = Cartridge::new(rom_with(program)).unwrap();
    let brom = Bootrom::new(None).unwrap();
    GameBoy::new(cart, brom)
}

#[test]
fn fresh_cpu_post_boot_state() {
    let gb = fresh_gb(&[]);
    let regs = &gb.cpu.regs;
    assert_eq!(regs.readw(iogb::cpu::RegsW::AF), 0x01B0);
    assert_eq!(regs.readw(iogb::cpu::RegsW::BC), 0x0013);
    assert_eq!(regs.readw(iogb::cpu::RegsW::DE), 0x00D8);
    assert_eq!(regs.readw(iogb::cpu::RegsW::HL), 0x014D);
    assert_eq!(regs.sp, 0xFFFE);
    assert_eq!(regs.pc, 0x0100);
    assert_eq!(gb.cpu.interconnect.readb(0xFF40), 0x91);
    assert_eq!(gb.cpu.interconnect.readb(0xFF47), 0xFC);
}

#[test]
fn inc_a_sets_half_carry() {
    // INC A with A = 0x0F: A = 0x10, Z = 0, N = 0, H = 1, 4 cycles.
    let mut gb = fresh_gb(&[(0x0100, 0x3C)]);
    gb.cpu.regs.a = 0x0F;
    let cycles = gb.cpu.dexec().unwrap();
    assert_eq!(gb.cpu.regs.a, 0x10);
    assert!(!gb.cpu.check_flag(Flags::Z));
    assert!(!gb.cpu.check_flag(Flags::N));
    assert!(gb.cpu.check_flag(Flags::H));
    assert_eq!(cycles, 4);
}

#[test]
fn add_a_a_overflows_to_zero() {
    // ADD A,A with A = 0x80: A = 0x00, Z = 1, N = 0, H = 0, C = 1, 4 cycles.
    let mut gb = fresh_gb(&[(0x0100, 0x87)]);
    gb.cpu.regs.a = 0x80;
    let cycles = gb.cpu.dexec().unwrap();
    assert_eq!(gb.cpu.regs.a, 0x00);
    assert!(gb.cpu.check_flag(Flags::Z));
    assert!(!gb.cpu.check_flag(Flags::N));
    assert!(!gb.cpu.check_flag(Flags::H));
    assert!(gb.cpu.check_flag(Flags::C));
    assert_eq!(cycles, 4);
}

#[test]
fn jp_sets_pc() {
    // JP 0x1234 from PC = 0x0150: PC = 0x1234, 16 cycles.
    let mut gb = fresh_gb(&[(0x0150, 0xC3), (0x0151, 0x34), (0x0152, 0x12)]);
    gb.cpu.regs.pc = 0x0150;
    let cycles = gb.cpu.dexec().unwrap();
    assert_eq!(gb.cpu.regs.pc, 0x1234);
    assert_eq!(cycles, 16);
}

#[test]
fn call_pushes_return_address() {
    // CALL 0x2000 from PC = 0x0200, SP = 0xFFFE: PC = 0x2000, SP = 0xFFFC,
    // memory at 0xFFFC holds the next PC 0x0203 little-endian, 24 cycles.
    let mut gb = fresh_gb(&[(0x0200, 0xCD), (0x0201, 0x00), (0x0202, 0x20)]);
    gb.cpu.regs.pc = 0x0200;
    gb.cpu.regs.sp = 0xFFFE;
    let cycles = gb.cpu.dexec().unwrap();
    assert_eq!(gb.cpu.regs.pc, 0x2000);
    assert_eq!(gb.cpu.regs.sp, 0xFFFC);
    assert_eq!(gb.cpu.interconnect.readb(0xFFFC), 0x03);
    assert_eq!(gb.cpu.interconnect.readb(0xFFFD), 0x02);
    assert_eq!(cycles, 24);
}

#[test]
fn interrupt_dispatch_to_vblank_vector() {
    // IME = 1, IE = 0x01, IF = 0x01, PC = 0x0300, SP = 0xFFFE: after one
    // step PC = 0x0040, SP = 0xFFFC, IME = 0, IF = 0x00, and 0xFFFC holds
    // 0x0300 little-endian.
    let mut gb = fresh_gb(&[]);
    gb.cpu.regs.pc = 0x0300;
    gb.cpu.regs.sp = 0xFFFE;
    gb.cpu.interconnect.ic.ime = true;
    gb.cpu.interconnect.writeb(0xFFFF, 0x01);
    gb.cpu.interconnect.writeb(0xFF0F, 0x01);
    gb.cpu.step().unwrap();
    assert_eq!(gb.cpu.regs.pc, 0x0040);
    assert_eq!(gb.cpu.regs.sp, 0xFFFC);
    assert!(!gb.cpu.interconnect.ic.ime);
    assert_eq!(gb.cpu.interconnect.ic.iflag, 0x00);
    assert_eq!(gb.cpu.interconnect.readb(0xFFFC), 0x00);
    assert_eq!(gb.cpu.interconnect.readb(0xFFFD), 0x03);
}

#[test]
fn sub_sets_borrow_flags() {
    // SUB 0x01 with A = 0x10: A = 0x0F, Z = 0, N = 1, H = 1 (nibble
    // borrow), C = 0.
    let mut gb = fresh_gb(&[(0x0100, 0xD6), (0x0101, 0x01)]);
    gb.cpu.regs.a = 0x10;
    let cycles = gb.cpu.dexec().unwrap();
    assert_eq!(gb.cpu.regs.a, 0x0F);
    assert!(!gb.cpu.check_flag(Flags::Z));
    assert!(gb.cpu.check_flag(Flags::N));
    assert!(gb.cpu.check_flag(Flags::H));
    assert!(!gb.cpu.check_flag(Flags::C));
    assert_eq!(cycles, 8);
}

#[test]
fn cp_preserves_a() {
    // CP 0x42 with A = 0x42: Z set, A untouched.
    let mut gb = fresh_gb(&[(0x0100, 0xFE), (0x0101, 0x42)]);
    gb.cpu.regs.a = 0x42;
    gb.cpu.dexec().unwrap();
    assert_eq!(gb.cpu.regs.a, 0x42);
    assert!(gb.cpu.check_flag(Flags::Z));
    assert!(gb.cpu.check_flag(Flags::N));
}

#[test]
fn ld_hl_indirect_roundtrip() {
    // LD (HL),A then LD B,(HL) through WRAM.
    let mut gb = fresh_gb(&[(0x0100, 0x77), (0x0101, 0x46)]);
    gb.cpu.regs.a = 0xAB;
    gb.cpu.regs.h = 0xC1;
    gb.cpu.regs.l = 0x23;
    assert_eq!(gb.cpu.dexec().unwrap(), 8);
    assert_eq!(gb.cpu.interconnect.readb(0xC123), 0xAB);
    assert_eq!(gb.cpu.dexec().unwrap(), 8);
    assert_eq!(gb.cpu.regs.b, 0xAB);
}

#[test]
fn ldi_and_ldd_step_hl() {
    // LD (HL+),A then LD (HL-),A.
    let mut gb = fresh_gb(&[(0x0100, 0x22), (0x0101, 0x32)]);
    gb.cpu.regs.a = 0x5A;
    gb.cpu.regs.h = 0xC2;
    gb.cpu.regs.l = 0xFF;
    gb.cpu.dexec().unwrap();
    assert_eq!(gb.cpu.interconnect.readb(0xC2FF), 0x5A);
    assert_eq!(gb.cpu.regs.readw(iogb::cpu::RegsW::HL), 0xC300);
    gb.cpu.dexec().unwrap();
    assert_eq!(gb.cpu.interconnect.readb(0xC300), 0x5A);
    assert_eq!(gb.cpu.regs.readw(iogb::cpu::RegsW::HL), 0xC2FF);
}

#[test]
fn pop_af_masks_low_nibble() {
    // POP AF reads back only the upper twelve bits of the pushed word.
    let mut gb = fresh_gb(&[(0x0100, 0xF1)]);
    gb.cpu.regs.sp = 0xC100;
    gb.cpu.interconnect.writeb(0xC100, 0xFF);
    gb.cpu.interconnect.writeb(0xC101, 0x12);
    gb.cpu.dexec().unwrap();
    assert_eq!(gb.cpu.regs.a, 0x12);
    assert_eq!(gb.cpu.regs.f, 0xF0);
    assert_eq!(gb.cpu.regs.sp, 0xC102);
}

#[test]
fn jr_takes_signed_offsets() {
    // JR -2 loops back onto the instruction itself.
    let mut gb = fresh_gb(&[(0x0150, 0x18), (0x0151, 0xFE)]);
    gb.cpu.regs.pc = 0x0150;
    assert_eq!(gb.cpu.dexec().unwrap(), 12);
    assert_eq!(gb.cpu.regs.pc, 0x0150);
}

#[test]
fn res_clears_and_set_sets_bits() {
    // CB RES 3,A then CB SET 3,A.
    let mut gb = fresh_gb(&[(0x0100, 0xCB), (0x0101, 0x9F), (0x0102, 0xCB), (0x0103, 0xDF)]);
    gb.cpu.regs.a = 0xFF;
    gb.cpu.dexec().unwrap();
    assert_eq!(gb.cpu.regs.a, 0xF7);
    gb.cpu.dexec().unwrap();
    assert_eq!(gb.cpu.regs.a, 0xFF);
}

#[test]
fn swap_exchanges_nibbles() {
    // CB SWAP A with A = 0xF1.
    let mut gb = fresh_gb(&[(0x0100, 0xCB), (0x0101, 0x37)]);
    gb.cpu.regs.a = 0xF1;
    gb.cpu.dexec().unwrap();
    assert_eq!(gb.cpu.regs.a, 0x1F);
    assert!(!gb.cpu.check_flag(Flags::Z));
}

#[test]
fn rlca_rotates_into_carry() {
    let mut gb = fresh_gb(&[(0x0100, 0x07)]);
    gb.cpu.regs.a = 0x81;
    gb.cpu.dexec().unwrap();
    assert_eq!(gb.cpu.regs.a, 0x03);
    assert!(gb.cpu.check_flag(Flags::C));
    assert!(!gb.cpu.check_flag(Flags::Z));
}

#[test]
fn stop_is_a_terminal_error() {
    let mut gb = fresh_gb(&[(0x0100, 0x10)]);
    let r = gb.cpu.dexec();
    assert_eq!(r, Err(iogb::cpu::StepError::Stop { pc: 0x0100 }));
}

#[test]
fn unknown_opcode_reports_address() {
    let mut gb = fresh_gb(&[(0x0100, 0xDD)]);
    let r = gb.cpu.dexec();
    assert_eq!(r, Err(iogb::cpu::StepError::Unimplemented { op: 0xDD, pc: 0x0100 }));
}

#[test]
fn run_consumes_at_least_the_timeslice() {
    // A ROM of NOPs: run must return just past the budget.
    let mut gb = fresh_gb(&[]);
    let t = gb.cpu.interconnect.readb(0x0100);
    assert_eq!(t, 0x00);
    let used = gb.run(100).unwrap();
    assert!(used > 100);
    assert!(used <= 104);
}

#[test]
fn ei_and_di_toggle_ime() {
    let mut gb = fresh_gb(&[(0x0100, 0xFB), (0x0101, 0xF3)]);
    assert!(!gb.cpu.interconnect.ic.ime);
    gb.cpu.dexec().unwrap();
    assert!(gb.cpu.interconnect.ic.ime);
    gb.cpu.dexec().unwrap();
    assert!(!gb.cpu.interconnect.ic.ime);
}

#[test]
fn reti_restores_pc_and_ime() {
    let mut gb = fresh_gb(&[(0x0100, 0xD9)]);
    gb.cpu.regs.sp = 0xC200;
    gb.cpu.interconnect.writeb(0xC200, 0x34);
    gb.cpu.interconnect.writeb(0xC201, 0x12);
    assert_eq!(gb.cpu.dexec().unwrap(), 16);
    assert_eq!(gb.cpu.regs.pc, 0x1234);
    assert!(gb.cpu.interconnect.ic.ime);
    assert_eq!(gb.cpu.regs.sp, 0xC202);
}

#[test]
fn interrupt_priority_vblank_first() {
    // IME = 1, IE = 0xFF, IF = 0x1F: the dispatch takes the VBlank vector
    // 0x0040 and IF drops to 0x1E.
    let mut gb = fresh_gb(&[]);
    gb.cpu.regs.pc = 0x0300;
    gb.cpu.regs.sp = 0xFFFE;
    gb.cpu.interconnect.ic.ime = true;
    gb.cpu.interconnect.writeb(0xFFFF, 0xFF);
    gb.cpu.interconnect.writeb(0xFF0F, 0x1F);
    gb.cpu.step().unwrap();
    assert_eq!(gb.cpu.regs.pc, 0x0040);
    assert_eq!(gb.cpu.interconnect.ic.iflag, 0x1E);
    // the next dispatch takes LCDC-Stat at 0x0048
    gb.cpu.interconnect.ic.ime = true;
    gb.cpu.step().unwrap();
    assert_eq!(gb.cpu.regs.pc, 0x0048);
    assert_eq!(gb.cpu.interconnect.ic.iflag, 0x1C);
}

#[test]
fn timer_interrupt_vector() {
    let mut gb = fresh_gb(&[]);
    gb.cpu.regs.sp = 0xFFFE;
    gb.cpu.interconnect.ic.ime = true;
    gb.cpu.interconnect.writeb(0xFFFF, 0xFF);
    gb.cpu.interconnect.ic.request_interrupt(Interrupt::Timer);
    gb.cpu.step().unwrap();
    assert_eq!(gb.cpu.regs.pc, 0x0050);
}

#[test]
fn back_buffer_has_one_byte_per_pixel() {
    let gb = fresh_gb(&[]);
    let buf = gb.back_buffer();
    assert_eq!(buf.len(), 160 * 144);
    assert!(buf.iter().all(|p| *p <= 3));
}
