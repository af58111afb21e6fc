//! The timer's DIV and TIMA behaviour, and the PPU's line/mode cycle over a
//! whole frame, including the single VBlank request.

use iogb::gpu::{Gpu, Mode};
use iogb::interrupt::{Interrupt, InterruptController};
use iogb::timer::{InputClockFreq, Timer};

#[test]
fn div_counts_every_256_cycles() {
    // From DIV = 0, after n T-cycles DIV reads (n / 256) mod 256.
    let mut t = Timer::new();
    let mut ic = InterruptController::new();
    t.step(1000, &mut ic);
    assert_eq!(t.get_div(), 3);
    let mut t2 = Timer::new();
    t2.step(256 * 300 + 7, &mut ic);
    assert_eq!(t2.get_div(), (300 % 256) as u8);
}

#[test]
fn div_accumulates_across_steps() {
    let mut t = Timer::new();
    let mut ic = InterruptController::new();
    for _ in 0..64 {
        t.step(16, &mut ic);
    }
    // 1024 cycles in small slices: DIV = 4
    assert_eq!(t.get_div(), 4);
}

#[test]
fn tima_overflow_reloads_and_requests_interrupt() {
    let mut t = Timer::new();
    let mut ic = InterruptController::new();
    t.set_tma(0xAB);
    t.set_tima(0xFF);
    t.set_tac(0x05);  // enabled, 262144 Hz: one tick every 16 cycles
    t.step(16, &mut ic);
    assert_eq!(t.get_tima(), 0xAB);
    assert_eq!(ic.iflag & 0x04, 0x04);
}

#[test]
fn tima_disabled_does_not_count() {
    let mut t = Timer::new();
    let mut ic = InterruptController::new();
    t.set_tima(0x10);
    t.set_tac(0x01);  // selector set but the enable bit clear
    t.step(4096, &mut ic);
    assert_eq!(t.get_tima(), 0x10);
    assert_eq!(ic.iflag, 0);
}

#[test]
fn tac_selects_the_input_clock() {
    let mut t = Timer::new();
    t.set_tac(0x04);
    assert_eq!(t.input_freq, InputClockFreq::Freq4096);
    assert_eq!(t.input_freq.to_cycles(), 1024);
    t.set_tac(0x05);
    assert_eq!(t.input_freq, InputClockFreq::Freq262144);
    assert_eq!(t.input_freq.to_cycles(), 16);
    t.set_tac(0x06);
    assert_eq!(t.input_freq, InputClockFreq::Freq65536);
    assert_eq!(t.input_freq.to_cycles(), 64);
    t.set_tac(0x07);
    assert_eq!(t.input_freq, InputClockFreq::Freq16384);
    assert_eq!(t.input_freq.to_cycles(), 256);
    assert_eq!(t.get_tac(), 0x07);
}

#[test]
fn tima_counts_at_selected_rate() {
    let mut t = Timer::new();
    let mut ic = InterruptController::new();
    t.set_tac(0x06);  // 65536 Hz: every 64 cycles
    t.step(640, &mut ic);
    assert_eq!(t.get_tima(), 10);
}

#[test]
fn frame_visits_every_line_once_with_one_vblank() {
    // With the LCD enabled and no register writes, one frame of 70224
    // T-cycles walks LY through 0..=153 exactly once and requests VBlank
    // exactly once.
    let mut gpu = Gpu::new();
    let mut ic = InterruptController::new();
    gpu.write_lcdc_reg(0x91);
    let mut seen: Vec<u8> = vec![gpu.read_ly()];
    let mut vblanks = 0u32;
    let mut prev_ly = gpu.read_ly();
    for _ in 0..(70224 / 4) {
        gpu.step(4, &mut ic);
        let ly = gpu.read_ly();
        if ly != prev_ly {
            seen.push(ly);
            prev_ly = ly;
        }
        if ic.iflag & 0x01 != 0 {
            vblanks += 1;
            ic.reset_interrupt(Interrupt::VBlank);
        }
    }
    // LY went 0,1,...,153 and wrapped back to 0 at the frame boundary.
    let mut expect: Vec<u8> = (0..=153).collect();
    expect.push(0);
    assert_eq!(seen, expect);
    assert_eq!(vblanks, 1);
}

#[test]
fn mode_sequence_over_one_line() {
    let mut gpu = Gpu::new();
    let mut ic = InterruptController::new();
    gpu.write_lcdc_reg(0x91);
    assert_eq!(gpu.mode, Mode::AccessingOam);
    gpu.step(80, &mut ic);
    assert_eq!(gpu.mode, Mode::AccessingVram);
    gpu.step(172, &mut ic);
    assert_eq!(gpu.mode, Mode::HBlank);
    gpu.step(204, &mut ic);
    assert_eq!(gpu.mode, Mode::AccessingOam);
    assert_eq!(gpu.read_ly(), 1);
}

#[test]
fn disabled_lcd_does_not_step() {
    let mut gpu = Gpu::new();
    let mut ic = InterruptController::new();
    assert!(!gpu.lcd_enable);
    gpu.step(10000, &mut ic);
    assert_eq!(gpu.read_ly(), 0);
    assert_eq!(gpu.mode, Mode::AccessingOam);
    assert_eq!(ic.iflag, 0);
}

#[test]
fn lyc_match_raises_stat_interrupt() {
    let mut gpu = Gpu::new();
    let mut ic = InterruptController::new();
    gpu.write_lcdc_reg(0x91);
    gpu.write_lyc(2);
    gpu.write_stat(0x40);  // LY == LYC interrupt enable
    for _ in 0..(456 * 3 / 4) {
        gpu.step(4, &mut ic);
    }
    assert_eq!(gpu.read_ly(), 3);
    assert_eq!(ic.iflag & 0x02, 0x02);
    // the compare bit has dropped again now that LY moved past LYC
    assert_eq!(gpu.read_stat() & 0x04, 0x00);
}

#[test]
fn background_renderer_draws_through_the_palette() {
    let mut gpu = Gpu::new();
    let mut ic = InterruptController::new();
    // Tile 0: first row all colour index 3 (both bit planes set).
    gpu.write_tileset(0, 0xFF);
    gpu.write_tileset(1, 0xFF);
    // Tilemap 1 row 0 already points at tile 0 everywhere.
    // BGP maps index 3 to shade 2.
    gpu.write_bgp(0b1000_0000);
    gpu.write_lcdc_reg(0x91);
    // One full line: OAM, VRAM (renders), HBlank.
    gpu.step(80, &mut ic);
    gpu.step(172, &mut ic);
    let buf = &gpu.buffer;
    for x in 0..160 {
        assert_eq!(buf[x], 2, "pixel {x}");
    }
    // line 1 is still untouched
    assert_eq!(buf[160], 0);
}

#[test]
fn scroll_x_shifts_the_background() {
    let mut gpu = Gpu::new();
    let mut ic = InterruptController::new();
    // Tile 0 row 0: leftmost pixel colour index 2 (high plane only).
    gpu.write_tileset(0, 0x80);
    gpu.write_tileset(1, 0x00);
    // Tile 1 is blank; tilemap column 1 points at tile 1.
    gpu.write_tilemap1(1, 1);
    // identity palette: each index maps to its own shade
    gpu.write_bgp(0b11100100);
    gpu.write_scx(4);
    gpu.write_lcdc_reg(0x91);
    gpu.step(80, &mut ic);
    gpu.step(172, &mut ic);
    let buf = &gpu.buffer;
    // screen x = 0 maps to xs = 4: tile 0, fine x = 4, a clear bit
    assert_eq!(buf[0], 0);
    // screen x = 4 maps to xs = 8: tilemap column 1 = blank tile
    assert_eq!(buf[4], 0);
    // screen x = 12 maps to xs = 16: column 2 = tile 0, fine x = 0, the
    // set bit of the high plane: colour index 2
    assert_eq!(buf[12], 2);
}

#[test]
fn palette_lookup_decodes_two_bit_shades() {
    let p = iogb::gpu::Palette { reg: 0b11100100 };
    assert_eq!(p.lookup(0), 0);
    assert_eq!(p.lookup(1), 1);
    assert_eq!(p.lookup(2), 2);
    assert_eq!(p.lookup(3), 3);
    let q = iogb::gpu::Palette { reg: 0b00011011 };
    assert_eq!(q.lookup(0), 3);
    assert_eq!(q.lookup(1), 2);
    assert_eq!(q.lookup(2), 1);
    assert_eq!(q.lookup(3), 0);
}
