//! The bus: byte write/read round trips through every plain memory region,
//! the little-endian word access, the PPU access gating, the MMIO decode
//! and the boot-mode latch.

use iogb::bootrom::Bootrom;
use iogb::cartridge::Cartridge;
use iogb::gpu::Mode;
use iogb::interconnect::Interconnect;

fn test_rom() -> Vec<u8> {
    let mut rom = vec![0u8; 0x8000];
    let title = b"BUS";
    for (i, b) in title.iter().enumerate() {
        rom[0x134 + i] = *b;
    }
    rom
}

fn fresh_bus() -> Interconnect {
    let cart = Cartridge::new(test_rom()).unwrap();
    let brom = Bootrom::new(None).unwrap();
    Interconnect::new(cart, brom)
}

#[test]
fn byte_write_read_roundtrip_all_plain_regions() {
    let mut bus = fresh_bus();
    // HBlank mode permits every access below.
    bus.gpu.mode = Mode::HBlank;
    let probes: [u16; 12] = [
        0x8000, 0x8ABC, 0x97FF,  // tileset
        0x9800, 0x9BFF,  // tilemap 1
        0x9C00, 0x9FFF,  // tilemap 2
        0xC000, 0xDFFF,  // WRAM
        0xFE00,  // OAM
        0xFF80, 0xFFFE,  // HRAM
    ];
    for (i, addr) in probes.iter().enumerate() {
        let val = (0x11 * (i as u8 + 1)) ^ 0x5A;
        bus.writeb(*addr, val);
        assert_eq!(bus.readb(*addr), val, "round trip at {addr:#06x}");
    }
}

#[test]
fn wram_echo_mirrors_wram() {
    let mut bus = fresh_bus();
    bus.writeb(0xC123, 0x77);
    assert_eq!(bus.readb(0xE123), 0x77);
    bus.writeb(0xE456, 0x88);
    assert_eq!(bus.readb(0xC456), 0x88);
}

#[test]
fn word_access_is_little_endian() {
    let mut bus = fresh_bus();
    bus.writew(0xC100, 0xBEEF);
    assert_eq!(bus.readb(0xC100), 0xEF);
    assert_eq!(bus.readb(0xC101), 0xBE);
    assert_eq!(bus.readw(0xC100), 0xBEEF);
    // a word write is exactly the two byte writes of its halves
    bus.writeb(0xC200, 0x34);
    bus.writeb(0xC201, 0x12);
    assert_eq!(bus.readw(0xC200), 0x1234);
}

#[test]
fn vram_blocked_during_vram_access_mode() {
    let mut bus = fresh_bus();
    bus.gpu.mode = Mode::HBlank;
    bus.writeb(0x8010, 0x42);
    bus.gpu.mode = Mode::AccessingVram;
    assert_eq!(bus.readb(0x8010), 0xFF);
    bus.writeb(0x8010, 0x99);  // dropped
    bus.gpu.mode = Mode::HBlank;
    assert_eq!(bus.readb(0x8010), 0x42);
}

#[test]
fn oam_blocked_during_oam_and_vram_modes() {
    let mut bus = fresh_bus();
    bus.gpu.mode = Mode::HBlank;
    bus.writeb(0xFE00, 0x21);
    bus.gpu.mode = Mode::AccessingOam;
    assert_eq!(bus.readb(0xFE00), 0xFF);
    bus.writeb(0xFE00, 0x55);  // dropped
    bus.gpu.mode = Mode::VBlank;
    assert_eq!(bus.readb(0xFE00), 0x21);
}

#[test]
fn prohibited_region_reads_zero() {
    let mut bus = fresh_bus();
    bus.writeb(0xFEA0, 0x12);
    assert_eq!(bus.readb(0xFEA0), 0x00);
    assert_eq!(bus.readb(0xFEFF), 0x00);
}

#[test]
fn unmapped_mmio_reads_zero_and_ignores_writes() {
    let mut bus = fresh_bus();
    bus.writeb(0xFF10, 0x80);
    assert_eq!(bus.readb(0xFF10), 0x00);
    assert_eq!(bus.readb(0xFF46), 0x00);
    assert_eq!(bus.readb(0xFF7F), 0x00);
}

#[test]
fn mmio_registers_route_to_their_units() {
    let mut bus = fresh_bus();
    bus.writeb(0xFF42, 0x13);
    assert_eq!(bus.readb(0xFF42), 0x13);
    assert_eq!(bus.gpu.scroll_y, 0x13);
    bus.writeb(0xFF45, 0x21);
    assert_eq!(bus.readb(0xFF45), 0x21);
    bus.writeb(0xFF47, 0xE4);
    assert_eq!(bus.readb(0xFF47), 0xE4);
    bus.writeb(0xFF06, 0xAB);
    assert_eq!(bus.timer.modulo, 0xAB);
    bus.writeb(0xFF0F, 0x15);
    assert_eq!(bus.ic.iflag, 0x15);
    bus.writeb(0xFFFF, 0x1B);
    assert_eq!(bus.ic.ie, 0x1B);
    assert_eq!(bus.readb(0xFFFF), 0x1B);
}

#[test]
fn div_write_resets_counter() {
    let mut bus = fresh_bus();
    bus.timer.div = 0x5C;
    bus.writeb(0xFF04, 0x77);
    assert_eq!(bus.readb(0xFF04), 0x00);
}

#[test]
fn stat_write_touches_only_enable_bits() {
    let mut bus = fresh_bus();
    bus.gpu.mode = Mode::VBlank;
    bus.writeb(0xFF41, 0xFF);
    // bits 6..3 taken, bit 2 reads the live LY == LYC comparison (true on
    // a fresh PPU), mode code 01 shows through
    assert_eq!(bus.readb(0xFF41), 0x78 | 0x04 | 0x01);
    // moving LYC away drops the comparison bit at once
    bus.writeb(0xFF45, 0x05);
    assert_eq!(bus.readb(0xFF41), 0x78 | 0x01);
}

#[test]
fn lcdc_register_reads_back() {
    let mut bus = fresh_bus();
    bus.writeb(0xFF40, 0x00);
    assert_eq!(bus.readb(0xFF40), 0x00);
    bus.writeb(0xFF40, 0xA5);
    assert_eq!(bus.readb(0xFF40), 0xA5);
}

#[test]
fn lcd_disable_forces_ly_to_zero() {
    let mut bus = fresh_bus();
    bus.writeb(0xFF40, 0x91);
    bus.gpu.ly = 77;
    bus.writeb(0xFF40, 0x11);
    assert_eq!(bus.readb(0xFF44), 0);
    assert!(!bus.gpu.lcd_enable);
}

#[test]
fn boot_latch_write_of_one_is_permanent() {
    let rom = test_rom();
    let cart = Cartridge::new(rom).unwrap();
    let brom = Bootrom::new(Some(vec![0xA7; 256])).unwrap();
    let mut bus = Interconnect::new(cart, brom);
    // the overlay is active: reads under 0x100 come from the boot ROM
    assert_eq!(bus.readb(0x0000), 0xA7);
    bus.writeb(0xFF50, 0x00);
    assert_eq!(bus.readb(0x0000), 0xA7);
    bus.writeb(0xFF50, 0x01);
    // now the cartridge shows through, and the latch never reopens
    assert_eq!(bus.readb(0x0000), 0x00);
    bus.writeb(0xFF50, 0x00);
    assert_eq!(bus.readb(0x0000), 0x00);
}

#[test]
fn bus_step_returns_its_ticks() {
    let mut bus = fresh_bus();
    assert_eq!(bus.step(12), 12);
}

#[test]
fn word_write_at_the_top_of_memory_wraps() {
    let mut bus = fresh_bus();
    // low byte lands in the last HRAM cell, high byte in IE
    bus.writew(0xFFFE, 0x12EF);
    assert_eq!(bus.readb(0xFFFE), 0xEF);
    assert_eq!(bus.ic.ie, 0x12);
    assert_eq!(bus.readw(0xFFFE), 0x12EF);
    // at 0xFFFF the second byte wraps to 0x0000, a ROM write the
    // controller ignores
    bus.writew(0xFFFF, 0x3456);
    assert_eq!(bus.ic.ie, 0x56);
    assert_eq!(bus.readb(0x0000), 0x00);
}
