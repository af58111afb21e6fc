//! Pixel-processing unit: the per-line mode state machine (OAM search, VRAM
//! access, HBlank, and ten lines of VBlank), the background renderer, the
//! LCDC/STAT/scroll/palette registers, and the VBlank / LCDC-Stat interrupt
//! requests they raise.

use vstd::prelude::*;

use crate::gameboy::{SCREEN_H, SCREEN_W};
use crate::interrupt::{Interrupt, InterruptController};

verus! {

pub const TILE_MAP_SZ: usize = 0x400;

pub const TILESET_SZ: usize = 0x1800;

pub const SPRITE_COUNT: usize = 40;

pub const HBLANK_CYCLES: i32 = 204;

pub const ACCESSING_OAM_CYCLES: i32 = 80;

pub const ACCESSING_VRAM_CYCLES: i32 = 172;

pub const VBLANK_FULL_LINE_CYCLES: i32 = 456;

/// STAT bit 2: LY == LYC.
pub const STAT_CMP: u8 = 0x04;

/// STAT bit 3: interrupt on HBlank entry.
pub const STAT_HBLANK_INT: u8 = 0x08;

/// STAT bit 4: interrupt on VBlank entry.
pub const STAT_VBLANK_INT: u8 = 0x10;

/// STAT bit 5: interrupt on OAM entry.
pub const STAT_OAM_INT: u8 = 0x20;

/// STAT bit 6: interrupt on LY == LYC.
pub const STAT_CMP_INT: u8 = 0x40;

/// Sprite attribute bit: behind the background.
pub const SPRITE_PRIORITY: u8 = 0x80;

/// Sprite attribute bit: mirrored vertically.
pub const SPRITE_Y_FLIP: u8 = 0x40;

/// Sprite attribute bit: mirrored horizontally.
pub const SPRITE_X_FLIP: u8 = 0x20;

/// Sprite attribute bit: drawn with OBP1 instead of OBP0.
pub const SPRITE_PALETTE: u8 = 0x10;

#[derive(Clone, Copy, PartialEq, Eq, Structural, Debug)]
pub enum Mode {
    HBlank,
    VBlank,
    AccessingOam,
    AccessingVram,
}

impl Mode {
    /// The mode code STAT bits 1..0 report.
    pub open spec fn spec_as_flag(self) -> u8 {
        match self {
            Mode::HBlank => 0,
            Mode::VBlank => 1,
            Mode::AccessingOam => 2,
            Mode::AccessingVram => 3,
        }
    }

    pub fn as_flag(&self) -> (r: u8)
        ensures
            r == self.spec_as_flag(),
    {
        match *self {
            Mode::HBlank => 0,
            Mode::VBlank => 1,
            Mode::AccessingOam => 2,
            Mode::AccessingVram => 3,
        }
    }

    /// T-cycles the machine spends in this mode before leaving it.
    pub open spec fn spec_cycles(self) -> int {
        match self {
            Mode::HBlank => 204,
            Mode::VBlank => 456,
            Mode::AccessingOam => 80,
            Mode::AccessingVram => 172,
        }
    }
}

#[derive(Clone, Copy, PartialEq, Eq, Structural, Debug)]
pub struct Sprite {
    pub y: u8,
    pub x: u8,
    pub tile_index: u8,
    pub flags: u8,
}

impl Sprite {
    pub fn new() -> (r: Sprite)
        ensures
            r == (Sprite { y: 0, x: 0, tile_index: 0, flags: 0 }),
    {
        Sprite { y: 0, x: 0, tile_index: 0, flags: 0 }
    }
}

/// A palette register: four two-bit shades packed into one byte, the shade
/// for colour index `i` in bits `2i+1..2i`.
#[derive(Clone, Copy, PartialEq, Eq, Structural, Debug)]
pub struct Palette {
    pub reg: u8,
}

/// The shade a palette byte maps colour index `idx` to.
pub open spec fn spec_shade(reg: u8, idx: int) -> u8 {
    if idx == 0 {
        (reg % 4) as u8
    } else if idx == 1 {
        ((reg / 4) % 4) as u8
    } else if idx == 2 {
        ((reg / 16) % 4) as u8
    } else {
        ((reg / 64) % 4) as u8
    }
}

impl Palette {
    pub fn new() -> (r: Palette)
        ensures
            r.reg == 0,
    {
        Palette { reg: 0 }
    }

    pub fn lookup(&self, idx: u8) -> (r: u8)
        requires
            idx < 4,
        ensures
            r == spec_shade(self.reg, idx as int),
            r < 4,
    {
        if idx == 0 {
            self.reg % 4
        } else if idx == 1 {
            (self.reg / 4) % 4
        } else if idx == 2 {
            (self.reg / 16) % 4
        } else {
            (self.reg / 64) % 4
        }
    }

    pub fn set_reg(&mut self, val: u8)
        ensures
            final(self).reg == val,
    {
        self.reg = val;
    }
}

/// Bit `i` of `b`, as 0 or 1.
pub open spec fn spec_bit(b: u8, i: int) -> int {
    if i == 0 {
        (b as int) % 2
    } else if i == 1 {
        ((b as int) / 2) % 2
    } else if i == 2 {
        ((b as int) / 4) % 2
    } else if i == 3 {
        ((b as int) / 8) % 2
    } else if i == 4 {
        ((b as int) / 16) % 2
    } else if i == 5 {
        ((b as int) / 32) % 2
    } else if i == 6 {
        ((b as int) / 64) % 2
    } else {
        ((b as int) / 128) % 2
    }
}

/// Bit `i` of `b` as 0 or 1, for pixel extraction.
pub fn bit_of(b: u8, i: u8) -> (r: u8)
    requires
        i < 8,
    ensures
        r == spec_bit(b, i as int),
        r < 2,
{
    if i == 0 {
        b % 2
    } else if i == 1 {
        (b / 2) % 2
    } else if i == 2 {
        (b / 4) % 2
    } else if i == 3 {
        (b / 8) % 2
    } else if i == 4 {
        (b / 16) % 2
    } else if i == 5 {
        (b / 32) % 2
    } else if i == 6 {
        (b / 64) % 2
    } else {
        (b / 128) % 2
    }
}

pub struct Gpu {
    pub mode: Mode,
    /// T-cycles left before the current mode is exited (counts down).
    pub ticks: i32,
    pub oam: Vec<Sprite>,
    /// The back buffer: 160 x 144 shades in 0..=3, row-major, row 0 on top.
    pub buffer: Vec<u8>,
    /// LCDC bit 7.
    pub lcd_enable: bool,
    /// LCDC bit 6.
    pub win_tile_map: bool,
    /// LCDC bit 5.
    pub win_enable: bool,
    /// LCDC bit 4: tileset addressing mode for the background.
    pub bg_tile_set: bool,
    /// LCDC bit 3: which tilemap the background uses.
    pub bg_tile_map: bool,
    /// LCDC bit 2: 8x16 sprites instead of 8x8.
    pub obj_size_large: bool,
    /// LCDC bit 1.
    pub obj_enable: bool,
    /// LCDC bit 0.
    pub bg_enable: bool,
    /// STAT bits 6..2 (the interrupt enables and the LY == LYC compare bit).
    pub stat: u8,
    pub scroll_x: u8,
    pub scroll_y: u8,
    pub win_x: u8,
    pub win_y: u8,
    pub ly: u8,
    pub lyc: u8,
    pub bgp: Palette,
    pub obp0: Palette,
    pub obp1: Palette,
    /// 384 tiles of 16 bytes each, flattened (0x8000..=0x97FF).
    pub tile_set: Vec<u8>,
    pub tile_map1: Vec<u8>,
    pub tile_map2: Vec<u8>,
}

/// The ghost view of the PPU: the same state over mathematical sequences,
/// with the countdown as an unbounded integer.
pub ghost struct GpuV {
    pub mode: Mode,
    pub ticks: int,
    pub oam: Seq<Sprite>,
    pub buffer: Seq<u8>,
    pub lcd_enable: bool,
    pub win_tile_map: bool,
    pub win_enable: bool,
    pub bg_tile_set: bool,
    pub bg_tile_map: bool,
    pub obj_size_large: bool,
    pub obj_enable: bool,
    pub bg_enable: bool,
    pub stat: u8,
    pub scroll_x: u8,
    pub scroll_y: u8,
    pub win_x: u8,
    pub win_y: u8,
    pub ly: u8,
    pub lyc: u8,
    pub bgp: u8,
    pub obp0: u8,
    pub obp1: u8,
    pub tile_set: Seq<u8>,
    pub tile_map1: Seq<u8>,
    pub tile_map2: Seq<u8>,
}

impl View for Gpu {
    type V = GpuV;

    open spec fn view(&self) -> GpuV {
        GpuV {
            mode: self.mode,
            ticks: self.ticks as int,
            oam: self.oam@,
            buffer: self.buffer@,
            lcd_enable: self.lcd_enable,
            win_tile_map: self.win_tile_map,
            win_enable: self.win_enable,
            bg_tile_set: self.bg_tile_set,
            bg_tile_map: self.bg_tile_map,
            obj_size_large: self.obj_size_large,
            obj_enable: self.obj_enable,
            bg_enable: self.bg_enable,
            stat: self.stat,
            scroll_x: self.scroll_x,
            scroll_y: self.scroll_y,
            win_x: self.win_x,
            win_y: self.win_y,
            ly: self.ly,
            lyc: self.lyc,
            bgp: self.bgp.reg,
            obp0: self.obp0.reg,
            obp1: self.obp1.reg,
            tile_set: self.tile_set@,
            tile_map1: self.tile_map1@,
            tile_map2: self.tile_map2@,
        }
    }
}

impl GpuV {
    /// Whether CPU access to VRAM is blocked: only while the LCD is on and
    /// the PPU is in its VRAM-access mode. With the LCD disabled, reads
    /// return actual contents.
    pub open spec fn spec_vram_blocked(self) -> bool {
        self.lcd_enable && self.mode == Mode::AccessingVram
    }

    /// What a CPU read of the tileset returns: blocked during VRAM access.
    pub open spec fn spec_read_tileset(self, addr: u16) -> u8 {
        if self.spec_vram_blocked() {
            0xFF
        } else {
            self.tile_set[addr as int]
        }
    }

    /// The PPU after a CPU tileset write: dropped during VRAM access.
    pub open spec fn spec_write_tileset(self, addr: u16, val: u8) -> GpuV {
        if self.spec_vram_blocked() {
            self
        } else {
            GpuV { tile_set: self.tile_set.update(addr as int, val), ..self }
        }
    }

    pub open spec fn spec_read_tilemap1(self, addr: u16) -> u8 {
        if self.spec_vram_blocked() {
            0xFF
        } else {
            self.tile_map1[addr as int]
        }
    }

    pub open spec fn spec_write_tilemap1(self, addr: u16, val: u8) -> GpuV {
        if self.spec_vram_blocked() {
            self
        } else {
            GpuV { tile_map1: self.tile_map1.update(addr as int, val), ..self }
        }
    }

    pub open spec fn spec_read_tilemap2(self, addr: u16) -> u8 {
        if self.spec_vram_blocked() {
            0xFF
        } else {
            self.tile_map2[addr as int]
        }
    }

    pub open spec fn spec_write_tilemap2(self, addr: u16, val: u8) -> GpuV {
        if self.spec_vram_blocked() {
            self
        } else {
            GpuV { tile_map2: self.tile_map2.update(addr as int, val), ..self }
        }
    }

    /// Whether CPU access to OAM is blocked: only while the LCD is on and
    /// the PPU is searching or drawing.
    pub open spec fn spec_oam_blocked(self) -> bool {
        self.lcd_enable && (self.mode == Mode::AccessingVram || self.mode == Mode::AccessingOam)
    }

    /// What a CPU read of OAM returns: the addressed sprite byte, or 0xFF
    /// while the PPU owns OAM.
    pub open spec fn spec_read_oam(self, addr: u16) -> u8 {
        if self.spec_oam_blocked() {
            0xFF
        } else {
            let s = self.oam[addr as int / 4];
            if addr % 4 == 0 {
                s.y
            } else if addr % 4 == 1 {
                s.x
            } else if addr % 4 == 2 {
                s.tile_index
            } else {
                s.flags
            }
        }
    }

    /// The PPU after a CPU OAM write: dropped while the PPU owns OAM.
    pub open spec fn spec_write_oam(self, addr: u16, val: u8) -> GpuV {
        if self.spec_oam_blocked() {
            self
        } else {
            let i = addr as int / 4;
            let s = self.oam[i];
            let s2 = if addr % 4 == 0 {
                Sprite { y: val, ..s }
            } else if addr % 4 == 1 {
                Sprite { x: val, ..s }
            } else if addr % 4 == 2 {
                Sprite { tile_index: val, ..s }
            } else {
                Sprite { flags: val, ..s }
            };
            GpuV { oam: self.oam.update(i, s2), ..self }
        }
    }

    /// The LCDC byte recomposed from the stored control bits.
    pub open spec fn spec_lcdc(self) -> u8 {
        ((if self.lcd_enable {
            128int
        } else {
            0int
        }) + (if self.win_tile_map {
            64int
        } else {
            0int
        }) + (if self.win_enable {
            32int
        } else {
            0int
        }) + (if self.bg_tile_set {
            16int
        } else {
            0int
        }) + (if self.bg_tile_map {
            8int
        } else {
            0int
        }) + (if self.obj_size_large {
            4int
        } else {
            0int
        }) + (if self.obj_enable {
            2int
        } else {
            0int
        }) + (if self.bg_enable {
            1int
        } else {
            0int
        })) as u8
    }

    /// The PPU after an LCDC write: the control bits are decoded; switching
    /// the LCD off forces LY to 0, and switching it on restarts OAM search
    /// of line 0.
    pub open spec fn spec_write_lcdc(self, val: u8) -> GpuV {
        let enable = (val / 128) % 2 == 1;
        let base = GpuV {
            lcd_enable: enable,
            win_tile_map: (val / 64) % 2 == 1,
            win_enable: (val / 32) % 2 == 1,
            bg_tile_set: (val / 16) % 2 == 1,
            bg_tile_map: (val / 8) % 2 == 1,
            obj_size_large: (val / 4) % 2 == 1,
            obj_enable: (val / 2) % 2 == 1,
            bg_enable: val % 2 == 1,
            ..self
        };
        if self.lcd_enable && !enable {
            GpuV { ly: 0, ..base }
        } else if !self.lcd_enable && enable {
            GpuV { ly: 0, mode: Mode::AccessingOam, ticks: 80, ..base }
        } else {
            base
        }
    }

    /// The STAT byte: the stored interrupt enables in bits 6..3, the live
    /// LY == LYC comparison in bit 2, and the mode code in bits 1..0.
    pub open spec fn spec_stat(self) -> u8 {
        ((self.stat & 0x78) | (if self.ly == self.lyc {
            STAT_CMP
        } else {
            0
        })) | self.mode.spec_as_flag()
    }

    /// STAT writes replace only the interrupt-enable bits 6..3.
    pub open spec fn spec_write_stat(self, val: u8) -> GpuV {
        GpuV { stat: (self.stat & STAT_CMP) | (val & 0x78), ..self }
    }

    /// The background shade of pixel `x` on the current line, per the
    /// scroll registers, the selected tilemap, the tileset addressing mode
    /// and the BGP palette.
    pub open spec fn spec_bg_pixel(self, x: int) -> u8 {
        let y = (self.ly + self.scroll_y) % 256;
        let row = y / 8;
        let fy = y % 8;
        let xs = (x + self.scroll_x) % 256;
        let col = xs / 8;
        let fx = xs % 8;
        let map = if self.bg_tile_map {
            self.tile_map2
        } else {
            self.tile_map1
        };
        let tn = map[row * 32 + col];
        let ti: int = if self.bg_tile_set {
            tn as int
        } else {
            if tn < 128 {
                tn + 128
            } else {
                tn - 128
            }
        };
        let b0 = self.tile_set[ti * 16 + fy * 2];
        let b1 = self.tile_set[ti * 16 + fy * 2 + 1];
        let cn = spec_bit(b0, 7 - fx) * 2 + spec_bit(b1, 7 - fx);
        spec_shade(self.bgp, cn)
    }

    /// The buffer after the current line is rendered: background pixels for
    /// the visible line when the background is enabled, all else untouched.
    pub open spec fn spec_render_line(self) -> Seq<u8> {
        if self.ly >= 144 || !self.bg_enable {
            self.buffer
        } else {
            Seq::new(
                self.buffer.len(),
                |i: int|
                    if self.ly * 160 <= i < self.ly * 160 + 160 {
                        self.spec_bg_pixel(i - self.ly * 160)
                    } else {
                        self.buffer[i]
                    },
            )
        }
    }

    /// LY/LYC comparison after an LY update: sets or clears the compare bit
    /// and requests LCDC-Stat when they match and that interrupt is enabled.
    pub open spec fn spec_check_cmp(self, iflag: u8) -> (GpuV, u8) {
        if self.ly != self.lyc {
            (GpuV { stat: self.stat & !STAT_CMP, ..self }, iflag)
        } else {
            (
                GpuV { stat: self.stat | STAT_CMP, ..self },
                if self.stat & STAT_CMP_INT != 0 {
                    iflag | 0x02
                } else {
                    iflag
                },
            )
        }
    }

    /// Entry into `mode`: schedules its cycle cost and raises the entry
    /// interrupts (VBlank, and LCDC-Stat where STAT enables it).
    pub open spec fn spec_change_mode(self, mode: Mode, iflag: u8) -> (GpuV, u8) {
        let g = GpuV { mode, ticks: self.ticks + mode.spec_cycles(), ..self };
        match mode {
            Mode::HBlank => (g, iflag),
            Mode::VBlank => (
                g,
                if self.stat & STAT_VBLANK_INT != 0 {
                    (iflag | 0x01) | 0x02
                } else {
                    iflag | 0x01
                },
            ),
            Mode::AccessingOam => (
                g,
                if self.stat & STAT_OAM_INT != 0 {
                    iflag | 0x02
                } else {
                    iflag
                },
            ),
            Mode::AccessingVram => (g, iflag),
        }
    }

    /// One mode exit of the state machine, taken when the countdown has
    /// reached zero: the transition table of the PPU.
    pub open spec fn spec_advance(self, iflag: u8) -> (GpuV, u8) {
        match self.mode {
            Mode::HBlank => {
                let g1 = GpuV { ly: ((self.ly + 1) % 256) as u8, ..self };
                let gf = if g1.ly >= 144 {
                    g1.spec_change_mode(Mode::VBlank, iflag)
                } else {
                    g1.spec_change_mode(Mode::AccessingOam, iflag)
                };
                gf.0.spec_check_cmp(gf.1)
            },
            Mode::VBlank => {
                let g1 = GpuV { ly: ((self.ly + 1) % 256) as u8, ..self };
                let gf = if g1.ly <= 153 {
                    (GpuV { ticks: g1.ticks + 456, ..g1 }, iflag)
                } else {
                    GpuV { ly: 0, ..g1 }.spec_change_mode(Mode::AccessingOam, iflag)
                };
                gf.0.spec_check_cmp(gf.1)
            },
            Mode::AccessingOam => self.spec_change_mode(Mode::AccessingVram, iflag),
            Mode::AccessingVram => {
                let rendered = GpuV { buffer: self.spec_render_line(), ..self };
                rendered.spec_change_mode(Mode::HBlank, iflag)
            },
        }
    }

    /// The PPU and the IF byte after `cycles` T-cycles: the canonical
    /// transition `Gpu::step` implements. Idle while the LCD is disabled.
    pub open spec fn spec_step(self, cycles: u32, iflag: u8) -> (GpuV, u8) {
        if !self.lcd_enable {
            (self, iflag)
        } else {
            GpuV { ticks: self.ticks - cycles, ..self }.spec_drain(iflag)
        }
    }

    /// All mode exits owed while the countdown is at or below zero.
    pub open spec fn spec_drain(self, iflag: u8) -> (GpuV, u8)
        decreases (if self.ticks > 0 {
            0int
        } else {
            1 - self.ticks
        }),
    {
        if self.ticks > 0 {
            (self, iflag)
        } else {
            let gf = self.spec_advance(iflag);
            if gf.0.ticks > self.ticks {
                gf.0.spec_drain(gf.1)
            } else {
                // never taken: every mode exit schedules a positive cost
                gf
            }
        }
    }
}

impl Gpu {
    /// The fixed shapes of the PPU's memories, and the framebuffer's
    /// two-bit range: every pixel is a shade in 0..=3.
    pub open spec fn wf_mem(self) -> bool {
        &&& self.oam@.len() == 40
        &&& self.buffer@.len() == 160 * 144
        &&& forall|i: int| 0 <= i < self.buffer@.len() ==> self.buffer@[i] < 4
        &&& self.tile_set@.len() == 0x1800
        &&& self.tile_map1@.len() == 0x400
        &&& self.tile_map2@.len() == 0x400
    }

    pub open spec fn wf(self) -> bool {
        &&& self.wf_mem()
        &&& 0 < self.ticks <= 456
    }

    /// Well-formedness while the countdown may still be owed cycles.
    pub open spec fn wf_stepping(self) -> bool {
        &&& self.wf_mem()
        &&& -0x11000 <= self.ticks <= 456
    }

    pub fn new() -> (r: Gpu)
        ensures
            r.wf(),
            r.mode == Mode::AccessingOam,
            r.ticks == 80,
            !r.lcd_enable,
            r.ly == 0,
            r.lyc == 0,
            r.stat == 0,
            r.scroll_x == 0,
            r.scroll_y == 0,
            r.bgp.reg == 0,
            r.buffer@ == Seq::new(160 * 144, |_i: int| 0u8),
            r.tile_set@ == Seq::new(0x1800, |_i: int| 0u8),
            r.tile_map1@ == Seq::new(0x400, |_i: int| 0u8),
            r.tile_map2@ == Seq::new(0x400, |_i: int| 0u8),
            r.oam@ == Seq::new(40, |_i: int| Sprite { y: 0, x: 0, tile_index: 0, flags: 0 }),
            !r.win_tile_map && !r.win_enable && !r.bg_tile_set && !r.bg_tile_map
                && !r.obj_size_large && !r.obj_enable && !r.bg_enable,
            r.win_x == 0 && r.win_y == 0,
            r.obp0.reg == 0 && r.obp1.reg == 0,
    {
        let mut oam: Vec<Sprite> = Vec::new();
        let mut i: usize = 0;
        while i < SPRITE_COUNT
            invariant
                i <= 40,
                oam@ == Seq::new(i as nat, |_j: int| Sprite { y: 0, x: 0, tile_index: 0, flags: 0 }),
            decreases 40 - i,
        {
            oam.push(Sprite::new());
            i = i + 1;
            proof {
                assert(oam@ == Seq::new(
                    i as nat,
                    |_j: int| Sprite { y: 0, x: 0, tile_index: 0, flags: 0 },
                ));
            }
        }
        Gpu {
            mode: Mode::AccessingOam,
            ticks: 80,
            oam,
            buffer: zero_vec(SCREEN_W * SCREEN_H),
            lcd_enable: false,
            win_tile_map: false,
            win_enable: false,
            bg_tile_set: false,
            bg_tile_map: false,
            obj_size_large: false,
            obj_enable: false,
            bg_enable: false,
            stat: 0,
            scroll_x: 0,
            scroll_y: 0,
            win_x: 0,
            win_y: 0,
            ly: 0,
            lyc: 0,
            bgp: Palette::new(),
            obp0: Palette::new(),
            obp1: Palette::new(),
            tile_set: zero_vec(TILESET_SZ),
            tile_map1: zero_vec(TILE_MAP_SZ),
            tile_map2: zero_vec(TILE_MAP_SZ),
        }
    }

    // ----- VRAM and OAM, with the CPU-side access gating -----

    pub fn read_tileset(&self, addr: u16) -> (r: u8)
        requires
            self.wf_mem(),
            addr < 0x1800,
        ensures
            r == self@.spec_read_tileset(addr),
    {
        if self.lcd_enable && self.mode == Mode::AccessingVram {
            return 0xFF;
        }
        self.tile_set[addr as usize]
    }

    pub fn write_tileset(&mut self, addr: u16, val: u8)
        requires
            old(self).wf_mem(),
            addr < 0x1800,
        ensures
            final(self)@ == old(self)@.spec_write_tileset(addr, val),
            final(self).wf_mem(),
            final(self).ticks == old(self).ticks,
    {
        if self.lcd_enable && self.mode == Mode::AccessingVram {
            return ;
        }
        self.tile_set.set(addr as usize, val);
    }

    pub fn read_tilemap1(&self, addr: u16) -> (r: u8)
        requires
            self.wf_mem(),
            addr < 0x400,
        ensures
            r == self@.spec_read_tilemap1(addr),
    {
        if self.lcd_enable && self.mode == Mode::AccessingVram {
            return 0xFF;
        }
        self.tile_map1[addr as usize]
    }

    pub fn write_tilemap1(&mut self, addr: u16, val: u8)
        requires
            old(self).wf_mem(),
            addr < 0x400,
        ensures
            final(self)@ == old(self)@.spec_write_tilemap1(addr, val),
            final(self).wf_mem(),
            final(self).ticks == old(self).ticks,
    {
        if self.lcd_enable && self.mode == Mode::AccessingVram {
            return ;
        }
        self.tile_map1.set(addr as usize, val);
    }

    pub fn read_tilemap2(&self, addr: u16) -> (r: u8)
        requires
            self.wf_mem(),
            addr < 0x400,
        ensures
            r == self@.spec_read_tilemap2(addr),
    {
        if self.lcd_enable && self.mode == Mode::AccessingVram {
            return 0xFF;
        }
        self.tile_map2[addr as usize]
    }

    pub fn write_tilemap2(&mut self, addr: u16, val: u8)
        requires
            old(self).wf_mem(),
            addr < 0x400,
        ensures
            final(self)@ == old(self)@.spec_write_tilemap2(addr, val),
            final(self).wf_mem(),
            final(self).ticks == old(self).ticks,
    {
        if self.lcd_enable && self.mode == Mode::AccessingVram {
            return ;
        }
        self.tile_map2.set(addr as usize, val);
    }

    pub fn read_oam(&self, addr: u16) -> (r: u8)
        requires
            self.wf_mem(),
            addr < 160,
        ensures
            r == self@.spec_read_oam(addr),
    {
        if self.lcd_enable && (self.mode == Mode::AccessingVram || self.mode
            == Mode::AccessingOam) {
            return 0xFF;
        }
        let s = self.oam[addr as usize / 4];
        let field = addr % 4;
        if field == 0 {
            s.y
        } else if field == 1 {
            s.x
        } else if field == 2 {
            s.tile_index
        } else {
            s.flags
        }
    }

    pub fn write_oam(&mut self, addr: u16, val: u8)
        requires
            old(self).wf_mem(),
            addr < 160,
        ensures
            final(self)@ == old(self)@.spec_write_oam(addr, val),
            final(self).wf_mem(),
            final(self).ticks == old(self).ticks,
    {
        if self.lcd_enable && (self.mode == Mode::AccessingVram || self.mode
            == Mode::AccessingOam) {
            return ;
        }
        let i = addr as usize / 4;
        let mut s = self.oam[i];
        let field = addr % 4;
        if field == 0 {
            s.y = val;
        } else if field == 1 {
            s.x = val;
        } else if field == 2 {
            s.tile_index = val;
        } else {
            s.flags = val;
        }
        self.oam.set(i, s);
    }

    // ----- registers -----

    pub fn read_lcdc_reg(&self) -> (r: u8)
        ensures
            r == self@.spec_lcdc(),
    {
        let mut r: u8 = 0;
        if self.lcd_enable {
            r = r + 128;
        }
        if self.win_tile_map {
            r = r + 64;
        }
        if self.win_enable {
            r = r + 32;
        }
        if self.bg_tile_set {
            r = r + 16;
        }
        if self.bg_tile_map {
            r = r + 8;
        }
        if self.obj_size_large {
            r = r + 4;
        }
        if self.obj_enable {
            r = r + 2;
        }
        if self.bg_enable {
            r = r + 1;
        }
        r
    }

    pub fn write_lcdc_reg(&mut self, val: u8)
        requires
            old(self).wf_mem(),
        ensures
            final(self)@ == old(self)@.spec_write_lcdc(val),
            final(self).wf_mem(),
            old(self).wf() ==> final(self).wf(),
    {
        let enable = (val / 128) % 2 == 1;
        if self.lcd_enable && !enable {
            self.ly = 0;
        } else if !self.lcd_enable && enable {
            self.ly = 0;
            self.mode = Mode::AccessingOam;
            self.ticks = 80;
        }
        self.lcd_enable = enable;
        self.win_tile_map = (val / 64) % 2 == 1;
        self.win_enable = (val / 32) % 2 == 1;
        self.bg_tile_set = (val / 16) % 2 == 1;
        self.bg_tile_map = (val / 8) % 2 == 1;
        self.obj_size_large = (val / 4) % 2 == 1;
        self.obj_enable = (val / 2) % 2 == 1;
        self.bg_enable = val % 2 == 1;
    }

    pub fn write_wx(&mut self, val: u8)
        ensures
            *final(self) == (Gpu { win_x: val, ..*old(self) }),
    {
        self.win_x = val;
    }

    pub fn write_wy(&mut self, val: u8)
        ensures
            *final(self) == (Gpu { win_y: val, ..*old(self) }),
    {
        self.win_y = val;
    }

    pub fn read_wx(&self) -> (r: u8)
        ensures
            r == self.win_x,
    {
        self.win_x
    }

    pub fn read_wy(&self) -> (r: u8)
        ensures
            r == self.win_y,
    {
        self.win_y
    }

    pub fn write_scx(&mut self, val: u8)
        ensures
            *final(self) == (Gpu { scroll_x: val, ..*old(self) }),
    {
        self.scroll_x = val;
    }

    pub fn write_scy(&mut self, val: u8)
        ensures
            *final(self) == (Gpu { scroll_y: val, ..*old(self) }),
    {
        self.scroll_y = val;
    }

    pub fn read_scx(&self) -> (r: u8)
        ensures
            r == self.scroll_x,
    {
        self.scroll_x
    }

    pub fn read_scy(&self) -> (r: u8)
        ensures
            r == self.scroll_y,
    {
        self.scroll_y
    }

    pub fn read_ly(&self) -> (r: u8)
        ensures
            r == self.ly,
    {
        self.ly
    }

    pub fn write_ly(&mut self, val: u8)
        ensures
            *final(self) == (Gpu { ly: val, ..*old(self) }),
    {
        self.ly = val;
    }

    pub fn read_lyc(&self) -> (r: u8)
        ensures
            r == self.lyc,
    {
        self.lyc
    }

    pub fn write_lyc(&mut self, val: u8)
        ensures
            *final(self) == (Gpu { lyc: val, ..*old(self) }),
    {
        self.lyc = val;
    }

    pub fn read_stat(&self) -> (r: u8)
        ensures
            r == self@.spec_stat(),
    {
        let cmp: u8 = if self.ly == self.lyc {
            STAT_CMP
        } else {
            0
        };
        ((self.stat & 0x78) | cmp) | self.mode.as_flag()
    }

    /// Writes to STAT replace only the interrupt-enable bits 6..3; the
    /// compare bit and the mode code are owned by the PPU.
    pub fn write_stat(&mut self, val: u8)
        ensures
            final(self)@ == old(self)@.spec_write_stat(val),
            *final(self) == (Gpu { stat: final(self).stat, ..*old(self) }),
    {
        self.stat = (self.stat & STAT_CMP) | (val & 0x78);
    }

    pub fn read_bgp(&self) -> (r: u8)
        ensures
            r == self.bgp.reg,
    {
        self.bgp.reg
    }

    pub fn read_obp0(&self) -> (r: u8)
        ensures
            r == self.obp0.reg,
    {
        self.obp0.reg
    }

    pub fn read_obp1(&self) -> (r: u8)
        ensures
            r == self.obp1.reg,
    {
        self.obp1.reg
    }

    pub fn write_bgp(&mut self, val: u8)
        ensures
            *final(self) == (Gpu { bgp: Palette { reg: val }, ..*old(self) }),
    {
        self.bgp.set_reg(val);
    }

    pub fn write_obp0(&mut self, val: u8)
        ensures
            *final(self) == (Gpu { obp0: Palette { reg: val }, ..*old(self) }),
    {
        self.obp0.set_reg(val);
    }

    pub fn write_obp1(&mut self, val: u8)
        ensures
            *final(self) == (Gpu { obp1: Palette { reg: val }, ..*old(self) }),
    {
        self.obp1.set_reg(val);
    }

    // ----- rendering -----

    /// Renders the scanline LY into the buffer (background only; the window
    /// and sprites are outside this core's required minimum).
    #[verifier::loop_isolation(false)]
    pub fn render_line(&mut self)
        requires
            old(self).wf_mem(),
        ensures
            final(self).buffer@ == old(self)@.spec_render_line(),
            *final(self) == (Gpu { buffer: final(self).buffer, ..*old(self) }),
            final(self).wf_mem(),
    {
        if self.ly >= 144 || !self.bg_enable {
            return ;
        }
        let start: usize = self.ly as usize * 160;
        let y: usize = (self.ly as usize + self.scroll_y as usize) % 256;
        let row: usize = y / 8;
        let fy: usize = y % 8;
        let mut i: usize = 0;
        while i < 160
            invariant
                i <= 160,
                self.buffer@.len() == 160 * 144,
                forall|j: int|
                    start <= j < start + i ==> self.buffer@[j] == old(self)@.spec_bg_pixel(
                        j - start,
                    ),
                forall|j: int|
                    0 <= j < self.buffer@.len() && !(start <= j < start + i) ==> self.buffer@[j]
                        == old(self).buffer@[j],
                *self == (Gpu { buffer: self.buffer, ..*old(self) }),
            decreases 160 - i,
        {
            let xs: usize = (i + self.scroll_x as usize) % 256;
            let col: usize = xs / 8;
            let fx: usize = xs % 8;
            let tn: u8 = if self.bg_tile_map {
                self.tile_map2[row * 32 + col]
            } else {
                self.tile_map1[row * 32 + col]
            };
            let ti: usize = if self.bg_tile_set {
                tn as usize
            } else {
                if tn < 128 {
                    tn as usize + 128
                } else {
                    tn as usize - 128
                }
            };
            let b0 = self.tile_set[ti * 16 + fy * 2];
            let b1 = self.tile_set[ti * 16 + fy * 2 + 1];
            let cn = bit_of(b0, 7 - fx as u8) * 2 + bit_of(b1, 7 - fx as u8);
            let shade = self.bgp.lookup(cn);
            self.buffer.set(start + i, shade);
            i = i + 1;
        }
        proof {
            assert(self.buffer@ =~= old(self)@.spec_render_line());
        }
    }

    // ----- the mode state machine -----

    fn check_cmp_int(&mut self, ic: &mut InterruptController)
        ensures
            (final(self)@, final(ic).iflag) == old(self)@.spec_check_cmp(old(ic).iflag),
            *final(self) == (Gpu { stat: final(self).stat, ..*old(self) }),
            final(ic).ime == old(ic).ime,
            final(ic).ie == old(ic).ie,
    {
        if self.ly != self.lyc {
            self.stat = self.stat & !STAT_CMP;
        } else {
            let s = self.stat;
            self.stat = s | STAT_CMP;
            if s & STAT_CMP_INT != 0 {
                ic.request_interrupt(Interrupt::LCDCStat);
            }
        }
    }

    fn change_mode(&mut self, mode: Mode, ic: &mut InterruptController)
        requires
            -0x11000 <= old(self).ticks <= 0,
        ensures
            (final(self)@, final(ic).iflag) == old(self)@.spec_change_mode(mode, old(ic).iflag),
            old(self).ticks < final(self).ticks <= old(self).ticks + 456,
            final(ic).ime == old(ic).ime,
            final(ic).ie == old(ic).ie,
    {
        self.mode = mode;
        match mode {
            Mode::HBlank => {
                self.ticks = self.ticks + HBLANK_CYCLES;
            },
            Mode::VBlank => {
                self.ticks = self.ticks + VBLANK_FULL_LINE_CYCLES;
                ic.request_interrupt(Interrupt::VBlank);
                if self.stat & STAT_VBLANK_INT != 0 {
                    ic.request_interrupt(Interrupt::LCDCStat);
                }
            },
            Mode::AccessingOam => {
                self.ticks = self.ticks + ACCESSING_OAM_CYCLES;
                if self.stat & STAT_OAM_INT != 0 {
                    ic.request_interrupt(Interrupt::LCDCStat);
                }
            },
            Mode::AccessingVram => {
                self.ticks = self.ticks + ACCESSING_VRAM_CYCLES;
            },
        }
    }

    #[verifier::rlimit(100)]
    fn advance_once(&mut self, ic: &mut InterruptController)
        requires
            old(self).wf_stepping(),
            old(self).ticks <= 0,
        ensures
            final(self).wf_stepping(),
            final(self).ticks > old(self).ticks,
            final(ic).ime == old(ic).ime,
            final(ic).ie == old(ic).ie,
            (final(self)@, final(ic).iflag) == old(self)@.spec_advance(old(ic).iflag),
    {
        match self.mode {
            Mode::HBlank => {
                self.ly = if self.ly == 255 {
                    0
                } else {
                    self.ly + 1
                };
                if self.ly >= 144 {
                    self.change_mode(Mode::VBlank, ic);
                } else {
                    self.change_mode(Mode::AccessingOam, ic);
                }
                self.check_cmp_int(ic);
            },
            Mode::VBlank => {
                self.ly = if self.ly == 255 {
                    0
                } else {
                    self.ly + 1
                };
                if self.ly <= 153 {
                    self.ticks = self.ticks + VBLANK_FULL_LINE_CYCLES;
                } else {
                    self.ly = 0;
                    self.change_mode(Mode::AccessingOam, ic);
                }
                self.check_cmp_int(ic);
            },
            Mode::AccessingOam => {
                self.change_mode(Mode::AccessingVram, ic);
            },
            Mode::AccessingVram => {
                self.render_line();
                self.change_mode(Mode::HBlank, ic);
            },
        }
    }

    /// Advances the PPU by `cycles` T-cycles: counts the current mode down
    /// and performs every mode exit that falls due. Does nothing while the
    /// LCD is disabled.
    pub fn step(&mut self, cycles: u32, ic: &mut InterruptController)
        requires
            old(self).wf(),
            cycles <= 0x10000,
        ensures
            final(self).wf(),
            final(ic).ime == old(ic).ime,
            final(ic).ie == old(ic).ie,
            (final(self)@, final(ic).iflag) == old(self)@.spec_step(cycles, old(ic).iflag),
            !old(self).lcd_enable ==> *final(self) == *old(self) && *final(ic) == *old(ic),
    {
        if !self.lcd_enable {
            return ;
        }
        self.ticks = self.ticks - cycles as i32;
        let ghost start = self@;
        let ghost fl0 = ic.iflag;

        while self.ticks <= 0
            invariant
                self.wf_stepping(),
                ic.ime == old(ic).ime,
                ic.ie == old(ic).ie,
                self@.spec_drain(ic.iflag) == start.spec_drain(fl0),
            decreases (if self.ticks <= 0 {
                1 - self.ticks
            } else {
                0int
            }),
        {
            let ghost pre = self@;
            let ghost fpre = ic.iflag;
            self.advance_once(ic);
            proof {
                assert(pre.spec_drain(fpre) == self@.spec_drain(ic.iflag));
            }
        }
        proof {
            assert(self@.spec_drain(ic.iflag) == (self@, ic.iflag));
        }
    }
}

/// A zeroed byte vector of the wanted length.
fn zero_vec(n: usize) -> (r: Vec<u8>)
    ensures
        r@ == Seq::new(n as nat, |_i: int| 0u8),
{
    let mut v: Vec<u8> = Vec::new();
    let mut i: usize = 0;
    while i < n
        invariant
            i <= n,
            v@ == Seq::new(i as nat, |_j: int| 0u8),
        decreases n - i,
    {
        v.push(0);
        i = i + 1;
        proof {
            assert(v@ == Seq::new(i as nat, |_j: int| 0u8));
        }
    }
    v
}

} // verus!
