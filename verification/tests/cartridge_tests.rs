//! Cartridge construction and MBC1 banking: header validation, the ROM
//! mask, the zero-write bank remap, RAM enable and the ROM/RAM mode select.

use iogb::bootrom::{Bootrom, BootromError};
use iogb::cartridge::{Cartridge, CartridgeError};

fn rom_of(banks: usize, mbc: u8) -> Vec<u8> {
    let mut rom = vec![0u8; banks * 0x4000];
    let title = b"BANKS";
    for (i, b) in title.iter().enumerate() {
        rom[0x134 + i] = *b;
    }
    rom[0x147] = mbc;
    rom[0x149] = 0x00;
    // mark every bank with its number at its first byte
    for bank in 0..banks {
        rom[bank * 0x4000] = bank as u8;
    }
    rom
}

#[test]
fn title_is_trimmed_ascii() {
    let rom = rom_of(2, 0x00);
    let cart = Cartridge::new(rom).unwrap();
    assert_eq!(cart.title, "BANKS");
}

#[test]
fn rejects_short_rom() {
    let rom = vec![0u8; 0x4000];
    assert!(matches!(Cartridge::new(rom), Err(CartridgeError::TooShort)));
}

#[test]
fn rejects_non_power_of_two_rom() {
    let mut rom = vec![0u8; 0x8000 + 0x4000];
    rom[0x147] = 0x00;
    assert!(matches!(Cartridge::new(rom), Err(CartridgeError::NotPowerOfTwo)));
}

#[test]
fn rejects_unknown_mbc() {
    let mut rom = vec![0u8; 0x8000];
    rom[0x147] = 0x13;
    assert!(matches!(Cartridge::new(rom), Err(CartridgeError::UnknownMbc)));
}

#[test]
fn rejects_unsupported_ram_size() {
    let mut rom = vec![0u8; 0x8000];
    rom[0x147] = 0x01;
    rom[0x149] = 0x03;
    assert!(matches!(Cartridge::new(rom), Err(CartridgeError::UnsupportedRamSize)));
}

#[test]
fn rejects_non_ascii_title() {
    let mut rom = vec![0u8; 0x8000];
    rom[0x134] = 0xC3;
    assert!(matches!(Cartridge::new(rom), Err(CartridgeError::InvalidTitle)));
}

#[test]
fn zero_bank_write_selects_bank_one() {
    // Writing 0x00 to the bank-select range of a 64-bank ROM still reads
    // bank 1: the five-bit zero remaps to one.
    let mut cart = Cartridge::new(rom_of(64, 0x01)).unwrap();
    cart.write_rom(0x2000, 0x00);
    assert_eq!(cart.read_rom(0x4000), 1);
    cart.write_rom(0x2000, 0x02);
    assert_eq!(cart.read_rom(0x4000), 2);
}

#[test]
fn rom_reads_mask_by_length() {
    // The effective index is always raw & (rom_len - 1): selecting a bank
    // past the end of a 2-bank ROM wraps.
    let mut cart = Cartridge::new(rom_of(2, 0x01)).unwrap();
    cart.write_rom(0x2000, 0x03);  // bank 3 of a 2-bank image
    // raw index 3 * 0x4000 wraps to bank 1
    assert_eq!(cart.read_rom(0x4000), 1);
    cart.write_rom(0x2000, 0x02);  // bank 2 wraps to bank 0
    assert_eq!(cart.read_rom(0x4000), 0);
}

#[test]
fn fixed_bank_reads_low_rom() {
    let cart = Cartridge::new(rom_of(4, 0x01)).unwrap();
    assert_eq!(cart.read_rom(0x0000), 0);
    assert_eq!(cart.read_rom(0x0147), 0x01);
}

#[test]
fn mode_select_switches_upper_bank_bits() {
    // In ROM mode (0) the 0x4000 write extends the ROM bank; in RAM mode
    // (1) it selects the RAM bank and leaves the ROM bank alone.
    let mut cart = Cartridge::new(rom_of(64, 0x01)).unwrap();
    cart.write_rom(0x2000, 0x01);
    cart.write_rom(0x4000, 0x01);  // ROM mode: bank 0x21
    assert_eq!(cart.rom_bank, 0x21);
    assert_eq!(cart.read_rom(0x4000), 0x21);

    cart.write_rom(0x6000, 0x01);  // switch to RAM mode
    cart.write_rom(0x4000, 0x02);  // now selects RAM bank 2
    assert_eq!(cart.rom_bank, 0x21);
    assert_eq!(cart.ram_bank, 0x02);

    cart.write_rom(0x6000, 0x00);  // back to ROM mode
    cart.write_rom(0x4000, 0x00);  // clears the upper bank bits
    assert_eq!(cart.rom_bank, 0x01);
}

#[test]
fn ram_enable_matches_low_nibble_a() {
    let mut cart = Cartridge::new(rom_of(4, 0x01)).unwrap();
    cart.write_rom(0x0000, 0x0A);
    assert!(cart.ram_enable);
    cart.write_rom(0x0000, 0x1A);  // any value with low nibble 0xA enables
    assert!(cart.ram_enable);
    cart.write_rom(0x0000, 0x00);
    assert!(!cart.ram_enable);
}

#[test]
fn absent_ram_reads_ff() {
    // This core only supports RAM-size code 0; cartridge RAM reads come
    // back 0xFF whether disabled or absent.
    let mut cart = Cartridge::new(rom_of(4, 0x01)).unwrap();
    assert_eq!(cart.read_ram(0xA000), 0xFF);
    cart.write_rom(0x0000, 0x0A);
    assert_eq!(cart.read_ram(0xA000), 0xFF);
    cart.write_ram(0xA000, 0x12);
    assert_eq!(cart.read_ram(0xA000), 0xFF);
}

#[test]
fn rom_only_cart_ignores_bank_writes() {
    let mut cart = Cartridge::new(rom_of(2, 0x00)).unwrap();
    cart.write_rom(0x2000, 0x05);
    assert_eq!(cart.rom_bank, 1);
    assert_eq!(cart.read_rom(0x4000), 1);
}

#[test]
fn bootrom_accepts_exactly_256_bytes() {
    assert!(Bootrom::new(Some(vec![0u8; 256])).is_ok());
    assert!(matches!(Bootrom::new(Some(vec![0u8; 255])), Err(BootromError::WrongSize)));
    assert!(matches!(Bootrom::new(Some(vec![0u8; 257])), Err(BootromError::WrongSize)));
    assert!(Bootrom::new(None).is_ok());
}

#[test]
fn bootrom_reads_its_bytes_or_ff() {
    let mut img = vec![0u8; 256];
    img[0x42] = 0x99;
    let b = Bootrom::new(Some(img)).unwrap();
    assert!(b.is_used());
    assert_eq!(b.readb(0x42), 0x99);
    assert_eq!(b.readb(0x00), 0x00);
    let none = Bootrom::new(None).unwrap();
    assert!(!none.is_used());
    assert_eq!(none.readb(0x42), 0xFF);
}

#[test]
fn zero_bank_write_keeps_upper_bits() {
    // With the upper bank bits already set, a low-five-bit write of zero
    // still remaps to one within the selected 32-bank group.
    let mut cart = Cartridge::new(rom_of(64, 0x01)).unwrap();
    cart.write_rom(0x4000, 0x01);  // ROM mode: upper bits = 01
    cart.write_rom(0x2000, 0x00);  // low bits zero remap to 1: bank 0x21
    assert_eq!(cart.rom_bank, 0x21);
    assert_eq!(cart.read_rom(0x4000), 0x21);
}
